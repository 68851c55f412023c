use via_installer::errors::InstallError;
use via_installer::machine::{accepts_event, start, step, Action, Event, State, EXEC_MODE};
use via_installer::platform::{
    binary_filename, get_binary_url, install_dir, resolve_target, Arch, Os,
};

const WINDOWS_URL: &str =
    "https://github.com/XnLogicaL/via-lang/releases/latest/download/via-x86_64-windows.exe";
const LINUX_URL: &str =
    "https://github.com/XnLogicaL/via-lang/releases/latest/download/via-x86_64-linux";
const MACOS_URL: &str =
    "https://github.com/XnLogicaL/via-lang/releases/latest/download/via-x86_64-osx";

#[test]
fn urls_name_each_supported_platform() {
    let w = get_binary_url(Os::Windows, Arch::X86_64).unwrap();
    assert_eq!(w, WINDOWS_URL);
    assert!(w.contains("windows"));
    assert!(w.contains("x86_64"));
    assert!(w.ends_with(".exe"));

    let l = get_binary_url(Os::Linux, Arch::X86_64).unwrap();
    assert_eq!(l, LINUX_URL);
    assert!(l.contains("linux"));
    assert!(l.contains("x86_64"));

    let m = get_binary_url(Os::MacOs, Arch::X86_64).unwrap();
    assert_eq!(m, MACOS_URL);
    assert!(m.contains("osx"));
    assert!(m.contains("x86_64"));
}

#[test]
fn filenames_per_platform() {
    assert_eq!(binary_filename(Os::Windows), "via.exe");
    assert_eq!(binary_filename(Os::Linux), "via");
    assert_eq!(binary_filename(Os::MacOs), "via");
}

#[test]
fn install_dirs_per_platform() {
    assert_eq!(install_dir(Os::Windows), "C:\\Program Files\\via");
    assert_eq!(install_dir(Os::Linux), "/usr/lib/via");
    assert_eq!(install_dir(Os::MacOs), "/usr/local/lib/via");
}

#[test]
fn resolve_target_carries_all_three_strings() {
    let t = resolve_target(Os::Linux, Arch::X86_64).unwrap();
    assert!(matches!(t.os, Os::Linux));
    assert_eq!(t.url, LINUX_URL);
    assert_eq!(t.filename, "via");
    assert_eq!(t.dir, "/usr/lib/via");
}

#[test]
fn unsupported_pairs_are_rejected() {
    let pairs = [
        (Os::Other, Arch::X86_64),
        (Os::Windows, Arch::Other),
        (Os::Linux, Arch::Other),
        (Os::MacOs, Arch::Other),
        (Os::Other, Arch::Other),
    ];
    for (os, arch) in pairs {
        assert_eq!(
            get_binary_url(os, arch),
            Err(InstallError::UnsupportedPlatform)
        );
        assert!(matches!(
            resolve_target(os, arch),
            Err(InstallError::UnsupportedPlatform)
        ));
    }
}

#[test]
fn unsupported_start_aborts_before_any_io() {
    let (state, action) = start(Os::Other, Arch::Other);
    assert!(matches!(
        state,
        State::Aborted {
            error: InstallError::UnsupportedPlatform
        }
    ));
    // The only requested action is the failure report: no directory
    // creation, no fetch, no write.
    assert!(matches!(
        action,
        Action::Fail {
            error: InstallError::UnsupportedPlatform
        }
    ));
}

#[test]
fn successful_run_round_trips_the_body() {
    let (s0, a0) = start(Os::Linux, Arch::X86_64);
    assert!(matches!(a0, Action::CreateDir { dir: "/usr/lib/via" }));

    let (s1, a1) = step(s0, Event::DirCreated);
    assert!(matches!(a1, Action::FetchUrl { url } if url == LINUX_URL));

    let body: Vec<u8> = vec![0x7f, b'E', b'L', b'F', 0, 1, 2, 3];
    let (s2, a2) = step(
        s1,
        Event::Fetched {
            body: body.clone(),
        },
    );
    match a2 {
        Action::Place {
            dir,
            filename,
            bytes,
            mode,
        } => {
            assert_eq!(dir, "/usr/lib/via");
            assert_eq!(filename, "via");
            assert_eq!(bytes, body);
            assert_eq!(mode, Some(0o755));
        }
        _ => panic!("a successful fetch must request placement"),
    }

    let (s3, a3) = step(s2, Event::Placed);
    assert!(matches!(s3, State::Installed { .. }));
    assert!(matches!(a3, Action::Report { dir: "/usr/lib/via" }));
}

#[test]
fn mode_bits_are_exec_on_posix_and_absent_on_windows() {
    assert_eq!(EXEC_MODE, 0o755);
    for (os, expected) in [
        (Os::Linux, Some(0o755)),
        (Os::MacOs, Some(0o755)),
        (Os::Windows, None),
    ] {
        let (s0, _) = start(os, Arch::X86_64);
        let (s1, _) = step(s0, Event::DirCreated);
        let (_, a2) = step(s1, Event::Fetched { body: vec![1, 2] });
        match a2 {
            Action::Place { mode, .. } => assert_eq!(mode, expected),
            _ => panic!("a successful fetch must request placement"),
        }
    }
}

#[test]
fn http_failure_aborts_without_a_write() {
    let (s0, _) = start(Os::Linux, Arch::X86_64);
    let (s1, _) = step(s0, Event::DirCreated);
    // A 404 response is a non-success status: the driver reports the fetch
    // as failed.
    let (s2, a2) = step(s1, Event::FetchFailed);
    assert!(matches!(
        s2,
        State::Aborted {
            error: InstallError::NetworkError
        }
    ));
    // No placement is requested, so no file is written at the target path.
    assert!(matches!(
        a2,
        Action::Fail {
            error: InstallError::NetworkError
        }
    ));
    assert_ne!(InstallError::NetworkError.exit_code(), 0);
}

#[test]
fn directory_failure_aborts_the_run() {
    let (s0, _) = start(Os::Windows, Arch::X86_64);
    let (s1, a1) = step(s0, Event::DirFailed);
    assert!(matches!(
        s1,
        State::Aborted {
            error: InstallError::DirectoryCreationError
        }
    ));
    assert!(matches!(
        a1,
        Action::Fail {
            error: InstallError::DirectoryCreationError
        }
    ));
}

#[test]
fn write_failure_aborts_the_run() {
    let (s0, _) = start(Os::MacOs, Arch::X86_64);
    let (s1, _) = step(s0, Event::DirCreated);
    let (s2, _) = step(s1, Event::Fetched { body: vec![9] });
    let (s3, a3) = step(s2, Event::WriteFailed);
    assert!(matches!(
        s3,
        State::Aborted {
            error: InstallError::WriteError
        }
    ));
    assert!(matches!(
        a3,
        Action::Fail {
            error: InstallError::WriteError
        }
    ));
}

#[test]
fn permission_failure_aborts_the_run() {
    let (s0, _) = start(Os::Linux, Arch::X86_64);
    let (s1, _) = step(s0, Event::DirCreated);
    let (s2, _) = step(s1, Event::Fetched { body: vec![9] });
    let (s3, a3) = step(s2, Event::PermissionFailed);
    assert!(matches!(
        s3,
        State::Aborted {
            error: InstallError::PermissionError
        }
    ));
    assert!(matches!(
        a3,
        Action::Fail {
            error: InstallError::PermissionError
        }
    ));
}

#[test]
fn terminal_states_accept_no_event() {
    let (s0, _) = start(Os::Linux, Arch::X86_64);
    let (s1, _) = step(s0, Event::DirCreated);
    let (s2, _) = step(s1, Event::Fetched { body: vec![] });
    let (installed, _) = step(s2, Event::Placed);
    assert!(!accepts_event(&installed, &Event::DirCreated));
    assert!(!accepts_event(&installed, &Event::Placed));

    let (aborted, _) = start(Os::Other, Arch::X86_64);
    assert!(!accepts_event(&aborted, &Event::DirCreated));
    assert!(!accepts_event(&aborted, &Event::FetchFailed));
}

#[test]
fn states_accept_exactly_their_outcomes() {
    let (s0, _) = start(Os::Linux, Arch::X86_64);
    assert!(accepts_event(&s0, &Event::DirCreated));
    assert!(accepts_event(&s0, &Event::DirFailed));
    assert!(!accepts_event(&s0, &Event::Placed));
    assert!(!accepts_event(&s0, &Event::Fetched { body: vec![] }));

    let (s1, _) = step(s0, Event::DirCreated);
    assert!(accepts_event(&s1, &Event::Fetched { body: vec![1] }));
    assert!(accepts_event(&s1, &Event::FetchFailed));
    assert!(!accepts_event(&s1, &Event::DirCreated));
}

#[test]
fn exit_codes_are_distinct_and_nonzero() {
    let all = [
        InstallError::UnsupportedPlatform,
        InstallError::DirectoryCreationError,
        InstallError::NetworkError,
        InstallError::WriteError,
        InstallError::PermissionError,
    ];
    for (i, a) in all.iter().enumerate() {
        assert_ne!(a.exit_code(), 0);
        for b in all.iter().skip(i + 1) {
            assert_ne!(a.exit_code(), b.exit_code());
        }
    }
}

#[test]
fn error_descriptions_name_each_failure() {
    assert_eq!(
        InstallError::UnsupportedPlatform.describe(),
        "unsupported platform or architecture"
    );
    assert_eq!(
        InstallError::DirectoryCreationError.describe(),
        "could not create the installation directory"
    );
    assert_eq!(
        InstallError::NetworkError.describe(),
        "could not download the binary"
    );
    assert_eq!(
        InstallError::WriteError.describe(),
        "could not write the binary"
    );
    assert_eq!(
        InstallError::PermissionError.describe(),
        "could not mark the binary executable"
    );
}
