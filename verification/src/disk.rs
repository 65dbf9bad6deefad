//! Disks of a virtual machine: what a request describes, and what the service decides
//! to hand to the process that runs the machine.
//!
//! A disk is described either by one image or by a list of partitions. Partitions are
//! put together into a composite image, for which the service picks three file names in
//! the machine's scratch directory. The files themselves are made by the caller.

use crate::error::ErrorKind;
use crate::text::{decimal, join_path, joined_path, push_decimal};
use vstd::prelude::*;

verus! {

/// An open file of the caller. The service passes it on and never looks into it.
#[derive(Clone, Copy, Debug, PartialEq, Eq, Hash, Structural)]
pub struct FileHandle {
    pub id: u64,
}

/// One partition of a disk.
#[derive(Clone, Debug, PartialEq, Eq)]
pub struct Partition {
    /// The name of the partition.
    pub label: String,
    /// The file that backs it.
    pub image: FileHandle,
    /// Whether the machine may write to it.
    pub writable: bool,
}

/// The description of a disk: one image, or a list of partitions, never both.
#[derive(Clone, Debug, PartialEq, Eq)]
pub struct DiskImage {
    pub image: Option<FileHandle>,
    pub partitions: Vec<Partition>,
    pub writable: bool,
}

/// The files of a composite image.
#[derive(Clone, Debug, PartialEq, Eq)]
pub struct CompositeImageFilenames {
    /// The composite image itself.
    pub composite: String,
    /// Its header partition.
    pub header: String,
    /// Its footer partition.
    pub footer: String,
}

/// The three names as plain text.
pub struct CompositeImageFilenamesView {
    pub composite: Seq<char>,
    pub header: Seq<char>,
    pub footer: Seq<char>,
}

impl View for CompositeImageFilenames {
    type V = CompositeImageFilenamesView;

    open spec fn view(&self) -> CompositeImageFilenamesView {
        CompositeImageFilenamesView {
            composite: self.composite@,
            header: self.header@,
            footer: self.footer@,
        }
    }
}

/// Where the contents of a disk come from.
#[derive(Clone, Debug, PartialEq, Eq)]
pub enum DiskSource {
    /// A copy of this handle.
    Image(FileHandle),
    /// A composite image that is to be built under these names.
    Composite(CompositeImageFilenames),
}

/// The source of a disk with its names as plain text.
pub enum DiskSourceView {
    Image(FileHandle),
    Composite(CompositeImageFilenamesView),
}

impl View for DiskSource {
    type V = DiskSourceView;

    open spec fn view(&self) -> DiskSourceView {
        match self {
            DiskSource::Image(handle) => DiskSourceView::Image(*handle),
            DiskSource::Composite(names) => DiskSourceView::Composite(names@),
        }
    }
}

/// A disk as the process that runs the machine gets it.
#[derive(Clone, Debug, PartialEq, Eq)]
pub struct DiskFile {
    pub source: DiskSource,
    pub writable: bool,
}

/// A disk with its names as plain text.
pub struct DiskFileView {
    pub source: DiskSourceView,
    pub writable: bool,
}

impl View for DiskFile {
    type V = DiskFileView;

    open spec fn view(&self) -> DiskFileView {
        DiskFileView { source: self.source@, writable: self.writable }
    }
}

/// The disks of one machine, and the files that have to stay open for as long as the
/// machine runs because composite images refer to them.
pub struct AssembledDisks {
    pub disks: Vec<DiskFile>,
    pub indirect_files: Vec<FileHandle>,
}

/// What `AssembledDisks` holds, as plain values.
pub struct AssembledDisksView {
    pub disks: Seq<DiskFileView>,
    pub indirect_files: Seq<FileHandle>,
    /// How many composite images there are.
    pub composites: nat,
}

/// The names of the composite image with the number `id` in the directory `dir`:
/// `composite-<id>.img`, `composite-<id>-header.img` and `composite-<id>-footer.img`.
pub open spec fn composite_image_filenames(dir: Seq<char>, id: nat) -> CompositeImageFilenamesView {
    CompositeImageFilenamesView {
        composite: joined_path(dir, "composite-"@ + decimal(id) + ".img"@),
        header: joined_path(dir, "composite-"@ + decimal(id) + "-header.img"@),
        footer: joined_path(dir, "composite-"@ + decimal(id) + "-footer.img"@),
    }
}

/// The backing files of the partitions of a disk, in their order.
pub open spec fn partition_files(disk: DiskImage) -> Seq<FileHandle> {
    Seq::new(disk.partitions@.len(), |i: int| disk.partitions@[i].image)
}

/// Whether a disk is put together from partitions.
pub open spec fn is_composite(disk: DiskImage) -> bool {
    disk.partitions@.len() > 0 && disk.image is None
}

/// What becomes of a disk: a composite image with the number `id` where it has
/// partitions and no image, its image where it has one and no partitions, and an
/// error where it has both or neither.
pub open spec fn assembled_disk(disk: DiskImage, dir: Seq<char>, id: nat) -> Result<
    DiskFileView,
    ErrorKind,
> {
    if disk.partitions@.len() > 0 {
        if disk.image is Some {
            Err(ErrorKind::IllegalArgument)
        } else {
            Ok(
                DiskFileView {
                    source: DiskSourceView::Composite(composite_image_filenames(dir, id)),
                    writable: disk.writable,
                },
            )
        }
    } else {
        match disk.image {
            Some(handle) => Ok(
                DiskFileView { source: DiskSourceView::Image(handle), writable: disk.writable },
            ),
            None => Err(ErrorKind::IllegalArgument),
        }
    }
}

/// What becomes of the disks of a machine: each disk in turn, the composite images
/// numbered from zero in the order of their disks, and the error of the first disk
/// that has one.
pub open spec fn assembled_disks(disks: Seq<DiskImage>, dir: Seq<char>) -> Result<
    AssembledDisksView,
    ErrorKind,
>
    decreases disks.len(),
{
    if disks.len() == 0 {
        Ok(AssembledDisksView { disks: Seq::empty(), indirect_files: Seq::empty(), composites: 0 })
    } else {
        match assembled_disks(disks.drop_last(), dir) {
            Err(e) => Err(e),
            Ok(before) => match assembled_disk(disks.last(), dir, before.composites) {
                Err(e) => Err(e),
                Ok(file) => Ok(
                    AssembledDisksView {
                        disks: before.disks.push(file),
                        indirect_files: if is_composite(disks.last()) {
                            before.indirect_files + partition_files(disks.last())
                        } else {
                            before.indirect_files
                        },
                        composites: if is_composite(disks.last()) {
                            before.composites + 1
                        } else {
                            before.composites
                        },
                    },
                ),
            },
        }
    }
}

/// The views of a list of disks.
pub open spec fn disk_file_views(disks: Seq<DiskFile>) -> Seq<DiskFileView> {
    Seq::new(disks.len(), |i: int| disks[i]@)
}

/// The name of a file of the composite image `id`: `composite-`, the number, `suffix`.
fn composite_file_name(id: u64, suffix: &str) -> (name: String)
    ensures
        name@ == "composite-"@ + decimal(id as nat) + suffix@,
{
    let mut name = String::from_str("composite-");
    push_decimal(&mut name, id);
    name.append(suffix);
    name
}

/// Picks the names of the files of the next composite image in `temporary_directory`,
/// and moves the counter on, so that no two images of a request share a name.
pub fn make_composite_image_filenames(
    temporary_directory: &str,
    next_temporary_image_id: &mut u64,
) -> (names: CompositeImageFilenames)
    requires
        *old(next_temporary_image_id) < u64::MAX,
    ensures
        names@ == composite_image_filenames(
            temporary_directory@,
            *old(next_temporary_image_id) as nat,
        ),
        *final(next_temporary_image_id) == *old(next_temporary_image_id) + 1,
{
    let id: u64 = *next_temporary_image_id;
    *next_temporary_image_id = id + 1;
    let composite = composite_file_name(id, ".img");
    let header = composite_file_name(id, "-header.img");
    let footer = composite_file_name(id, "-footer.img");
    CompositeImageFilenames {
        composite: join_path(temporary_directory, composite.as_str()),
        header: join_path(temporary_directory, header.as_str()),
        footer: join_path(temporary_directory, footer.as_str()),
    }
}

/// Decides what becomes of one disk.
///
/// A disk with partitions gets the names of a new composite image, and the backing
/// files of its partitions are added to `indirect_files`: they have to stay open until
/// the machine has ended. A disk with an image is that image. A disk with both, or with
/// neither, is refused, and nothing changes. Only a disk that gets names moves the
/// counter, so only there the counter has to have a successor.
pub fn assemble_disk_image(
    disk: &DiskImage,
    temporary_directory: &str,
    next_temporary_image_id: &mut u64,
    indirect_files: &mut Vec<FileHandle>,
) -> (r: Result<DiskFile, ErrorKind>)
    requires
        is_composite(*disk) ==> *old(next_temporary_image_id) < u64::MAX,
    ensures
        match r {
            Ok(file) => Ok::<DiskFileView, ErrorKind>(file@) == assembled_disk(
                *disk,
                temporary_directory@,
                *old(next_temporary_image_id) as nat,
            ),
            Err(e) => Err::<DiskFileView, ErrorKind>(e) == assembled_disk(
                *disk,
                temporary_directory@,
                *old(next_temporary_image_id) as nat,
            ),
        },
        r is Ok && is_composite(*disk) ==> *final(next_temporary_image_id) == *old(
            next_temporary_image_id,
        ) + 1 && final(indirect_files)@ == old(indirect_files)@ + partition_files(*disk),
        !(r is Ok && is_composite(*disk)) ==> *final(next_temporary_image_id) == *old(
            next_temporary_image_id,
        ) && final(indirect_files)@ == old(indirect_files)@,
{
    if disk.partitions.len() > 0 {
        if disk.image.is_some() {
            return Err(ErrorKind::IllegalArgument);
        }
        let names = make_composite_image_filenames(temporary_directory, next_temporary_image_id);
        let mut i: usize = 0;
        while i < disk.partitions.len()
            invariant
                i <= disk.partitions@.len(),
                indirect_files@ == old(indirect_files)@ + partition_files(*disk).take(i as int),
            decreases disk.partitions@.len() - i,
        {
            indirect_files.push(disk.partitions[i].image);
            proof {
                assert(partition_files(*disk).take(i + 1) =~= partition_files(*disk).take(
                    i as int,
                ).push(disk.partitions@[i as int].image));
            }
            i += 1;
        }
        proof {
            assert(partition_files(*disk).take(i as int) =~= partition_files(*disk));
        }
        Ok(DiskFile { source: DiskSource::Composite(names), writable: disk.writable })
    } else {
        match disk.image {
            Some(handle) => Ok(
                DiskFile { source: DiskSource::Image(handle), writable: disk.writable },
            ),
            None => Err(ErrorKind::IllegalArgument),
        }
    }
}

/// Decides what becomes of the disks of a machine, in their order.
pub fn assemble_disks(disks: &Vec<DiskImage>, temporary_directory: &str) -> (r: Result<
    AssembledDisks,
    ErrorKind,
>)
    ensures
        match r {
            Ok(all) => assembled_disks(disks@, temporary_directory@) matches Ok(expected)
                && disk_file_views(all.disks@) == expected.disks && all.indirect_files@
                == expected.indirect_files,
            Err(e) => assembled_disks(disks@, temporary_directory@) == Err::<
                AssembledDisksView,
                ErrorKind,
            >(e),
        },
{
    let mut files: Vec<DiskFile> = Vec::new();
    let mut indirect_files: Vec<FileHandle> = Vec::new();
    let mut next_temporary_image_id: u64 = 0;
    let mut i: usize = 0;
    proof {
        assert(disks@.take(0) =~= Seq::<DiskImage>::empty());
        assert(disk_file_views(files@) =~= Seq::<DiskFileView>::empty());
    }
    while i < disks.len()
        invariant
            i <= disks@.len(),
            next_temporary_image_id <= i,
            assembled_disks(disks@.take(i as int), temporary_directory@) matches Ok(expected)
                && disk_file_views(files@) == expected.disks && indirect_files@
                == expected.indirect_files && next_temporary_image_id == expected.composites,
        decreases disks@.len() - i,
    {
        proof {
            assert(disks@.take(i + 1).drop_last() =~= disks@.take(i as int));
            assert(disks@.take(i + 1).last() == disks@[i as int]);
        }
        match assemble_disk_image(
            &disks[i],
            temporary_directory,
            &mut next_temporary_image_id,
            &mut indirect_files,
        ) {
            Ok(file) => {
                proof {
                    assert(disk_file_views(files@.push(file)) =~= disk_file_views(files@).push(
                        file@,
                    ));
                }
                files.push(file);
            },
            Err(e) => {
                proof {
                    lemma_assembled_disks_error(disks@, temporary_directory@, i + 1);
                }
                return Err(e);
            },
        }
        i += 1;
    }
    proof {
        assert(disks@.take(i as int) =~= disks@);
    }
    Ok(AssembledDisks { disks: files, indirect_files })
}

/// An error among the first disks is the error of all of them.
pub proof fn lemma_assembled_disks_error(disks: Seq<DiskImage>, dir: Seq<char>, k: int)
    requires
        0 <= k <= disks.len(),
        assembled_disks(disks.take(k), dir) is Err,
    ensures
        assembled_disks(disks, dir) == assembled_disks(disks.take(k), dir),
    decreases disks.len() - k,
{
    if k == disks.len() {
        assert(disks.take(k) =~= disks);
    } else {
        assert(disks.drop_last().take(k) =~= disks.take(k));
        lemma_assembled_disks_error(disks.drop_last(), dir, k);
    }
}

/// A disk is refused exactly where it has both an image and partitions, or neither
/// of them, and the request is then malformed.
pub proof fn lemma_disk_needs_one_source(disk: DiskImage, dir: Seq<char>, id: nat)
    ensures
        assembled_disk(disk, dir, id) is Err <==> (disk.image is Some) == (disk.partitions@.len()
            > 0),
        assembled_disk(disk, dir, id) is Err ==> assembled_disk(disk, dir, id) == Err::<
            DiskFileView,
            ErrorKind,
        >(ErrorKind::IllegalArgument),
{
}

/// One disk with both an image and partitions, or with neither, makes the whole
/// request malformed, wherever among the disks it stands.
pub proof fn lemma_one_bad_disk_refuses_all(disks: Seq<DiskImage>, dir: Seq<char>, k: int)
    requires
        0 <= k < disks.len(),
        (disks[k].image is Some) == (disks[k].partitions@.len() > 0),
    ensures
        assembled_disks(disks, dir) == Err::<AssembledDisksView, ErrorKind>(
            ErrorKind::IllegalArgument,
        ),
{
    let first = disks.take(k + 1);
    assert(first.drop_last() =~= disks.take(k));
    assert(first.last() == disks[k]);
    lemma_errors_are_malformed(disks.take(k), dir);
    match assembled_disks(disks.take(k), dir) {
        Ok(before) => {
            lemma_disk_needs_one_source(disks[k], dir, before.composites);
        },
        Err(_) => {},
    }
    assert(assembled_disks(first, dir) == Err::<AssembledDisksView, ErrorKind>(
        ErrorKind::IllegalArgument,
    ));
    lemma_assembled_disks_error(disks, dir, k + 1);
}

/// The only error of a list of disks is that of a malformed request.
proof fn lemma_errors_are_malformed(disks: Seq<DiskImage>, dir: Seq<char>)
    ensures
        assembled_disks(disks, dir) is Err ==> assembled_disks(disks, dir) == Err::<
            AssembledDisksView,
            ErrorKind,
        >(ErrorKind::IllegalArgument),
    decreases disks.len(),
{
    if disks.len() > 0 {
        lemma_errors_are_malformed(disks.drop_last(), dir);
        match assembled_disks(disks.drop_last(), dir) {
            Ok(before) => {
                lemma_disk_needs_one_source(disks.last(), dir, before.composites);
            },
            Err(_) => {},
        }
    }
}

} // verus!
