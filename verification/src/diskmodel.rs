//! An abstract model of the slice of the filesystem the installer touches:
//! which directories exist, and for each file its bytes and its permission
//! mode. The driver's two disk operations — preparing the installation
//! directory and placing the binary — appear here as functions on that
//! model, and the laws of a run's disk effect are proved about them.

use vstd::prelude::*;

verus! {

/// One file on disk: its contents and, on systems that have one, its
/// permission mode (`None` where no mode was set, as on Windows).
pub struct FileModel {
    pub bytes: Seq<u8>,
    pub mode: Option<u32>,
}

/// The modelled disk: the set of existing directories and the files by
/// their full path.
pub struct DiskModel {
    pub dirs: Set<Seq<char>>,
    pub files: Map<Seq<char>, FileModel>,
}

/// The disk after the installation directory is prepared: the directory
/// exists, whether or not it already did, and every file is untouched.
pub open spec fn prepare_dir(d: DiskModel, dir: Seq<char>) -> DiskModel {
    DiskModel { dirs: d.dirs.insert(dir), files: d.files }
}

/// The disk after the binary is placed: the file at `path` holds exactly
/// `bytes` with mode `mode`, overwriting whatever was there, and the
/// directories are untouched.
pub open spec fn place_file(
    d: DiskModel,
    path: Seq<char>,
    bytes: Seq<u8>,
    mode: Option<u32>,
) -> DiskModel {
    DiskModel { dirs: d.dirs, files: d.files.insert(path, FileModel { bytes, mode }) }
}

/// The whole disk effect of one successful run: prepare the installation
/// directory, then place the fetched binary at its path inside it.
pub open spec fn install_effect(
    d: DiskModel,
    dir: Seq<char>,
    path: Seq<char>,
    bytes: Seq<u8>,
    mode: Option<u32>,
) -> DiskModel {
    place_file(prepare_dir(d, dir), path, bytes, mode)
}

/// Preparing the installation directory is idempotent: preparing the same
/// path twice in succession gives exactly the disk that preparing it once
/// gives, and either way the directory is then present — exactly once,
/// since the directories form a set.
pub proof fn lemma_prepare_dir_idempotent(d: DiskModel, dir: Seq<char>)
    ensures
        prepare_dir(prepare_dir(d, dir), dir) == prepare_dir(d, dir),
        prepare_dir(d, dir).dirs.contains(dir),
{
    assert(prepare_dir(prepare_dir(d, dir), dir).dirs =~= prepare_dir(d, dir).dirs);
}

/// A run that finds the directory already present succeeds the same way:
/// preparing a directory that exists changes nothing at all.
pub proof fn lemma_prepare_dir_existing(d: DiskModel, dir: Seq<char>)
    requires
        d.dirs.contains(dir),
    ensures
        prepare_dir(d, dir) == d,
{
    assert(prepare_dir(d, dir).dirs =~= d.dirs);
}

/// Placing the binary overwrites without asking: afterwards the file at its
/// path holds exactly the placed bytes and mode, whatever the disk held
/// there before, and no directory and no other file is touched.
pub proof fn lemma_place_file_overwrites(
    d: DiskModel,
    path: Seq<char>,
    bytes: Seq<u8>,
    mode: Option<u32>,
)
    ensures
        place_file(d, path, bytes, mode).files.contains_key(path),
        place_file(d, path, bytes, mode).files[path] == (FileModel { bytes, mode }),
        place_file(d, path, bytes, mode).dirs == d.dirs,
        forall|p: Seq<char>|
            p != path ==> #[trigger] place_file(d, path, bytes, mode).files.contains_key(p)
                == d.files.contains_key(p),
        forall|p: Seq<char>|
            p != path && d.files.contains_key(p) ==> #[trigger] place_file(
                d,
                path,
                bytes,
                mode,
            ).files[p] == d.files[p],
{
}

/// After one successful run the installation directory exists, the
/// installed file holds byte for byte the body that was fetched, with the
/// requested mode, and nothing else on the disk has changed.
pub proof fn lemma_install_effect(
    d: DiskModel,
    dir: Seq<char>,
    path: Seq<char>,
    bytes: Seq<u8>,
    mode: Option<u32>,
)
    ensures
        install_effect(d, dir, path, bytes, mode).dirs == d.dirs.insert(dir),
        install_effect(d, dir, path, bytes, mode).dirs.contains(dir),
        install_effect(d, dir, path, bytes, mode).files[path].bytes == bytes,
        install_effect(d, dir, path, bytes, mode).files[path].mode == mode,
        forall|p: Seq<char>|
            p != path && d.files.contains_key(p) ==> #[trigger] install_effect(
                d,
                dir,
                path,
                bytes,
                mode,
            ).files[p] == d.files[p],
{
}

} // verus!
