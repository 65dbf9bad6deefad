use std::path::Path;
use virtualizationservice::disk::{
    assemble_disk_image, assemble_disks, make_composite_image_filenames, CompositeImageFilenames,
    DiskFile, DiskImage, DiskSource, FileHandle, Partition,
};
use virtualizationservice::error::ErrorKind;
use virtualizationservice::text::join_path;

fn partition(label: &str, id: u64) -> Partition {
    Partition { label: label.to_string(), image: FileHandle { id }, writable: false }
}

fn names(dir: &str, id: u64) -> CompositeImageFilenames {
    CompositeImageFilenames {
        composite: format!("{}/composite-{}.img", dir, id),
        header: format!("{}/composite-{}-header.img", dir, id),
        footer: format!("{}/composite-{}-footer.img", dir, id),
    }
}

#[test]
fn composite_image_filenames_carry_the_counter() {
    let mut id = 0u64;
    let first = make_composite_image_filenames("/data/vm/10", &mut id);
    assert_eq!(id, 1);
    assert_eq!(first.composite, "/data/vm/10/composite-0.img");
    assert_eq!(first.header, "/data/vm/10/composite-0-header.img");
    assert_eq!(first.footer, "/data/vm/10/composite-0-footer.img");
    let second = make_composite_image_filenames("/data/vm/10", &mut id);
    assert_eq!(id, 2);
    assert_eq!(second, names("/data/vm/10", 1));
    assert_ne!(first, second);
    let mut big = 1234567890123u64;
    let third = make_composite_image_filenames("scratch/", &mut big);
    assert_eq!(third.composite, "scratch/composite-1234567890123.img");
    assert_eq!(big, 1234567890124);
}

#[test]
fn join_path_agrees_with_the_standard_library() {
    let cases = [
        ("/tmp", "zero.img"),
        ("/tmp/", "zero.img"),
        ("", "zero.img"),
        ("/", "a"),
        ("a/b", "c"),
        ("/tmp", "/abs"),
        ("rel", ""),
    ];
    for (dir, name) in cases {
        let expected = Path::new(dir).join(name);
        assert_eq!(join_path(dir, name), expected.to_str().unwrap(), "{:?} {:?}", dir, name);
    }
}

#[test]
fn disk_with_image_and_partitions_is_rejected() {
    let disk = DiskImage {
        image: Some(FileHandle { id: 1 }),
        partitions: vec![partition("a", 2)],
        writable: false,
    };
    let mut id = 7u64;
    let mut indirect = vec![FileHandle { id: 99 }];
    let r = assemble_disk_image(&disk, "/tmp", &mut id, &mut indirect);
    assert_eq!(r, Err(ErrorKind::IllegalArgument));
    assert_eq!(id, 7);
    assert_eq!(indirect, vec![FileHandle { id: 99 }]);
}

#[test]
fn disk_with_neither_image_nor_partitions_is_rejected() {
    let disk = DiskImage { image: None, partitions: vec![], writable: true };
    let mut id = 0u64;
    let mut indirect = vec![];
    assert_eq!(
        assemble_disk_image(&disk, "/tmp", &mut id, &mut indirect),
        Err(ErrorKind::IllegalArgument)
    );
    assert_eq!(id, 0);
    assert!(indirect.is_empty());
}

#[test]
fn disk_with_an_image_is_that_image() {
    let disk = DiskImage { image: Some(FileHandle { id: 5 }), partitions: vec![], writable: true };
    let mut id = 3u64;
    let mut indirect = vec![];
    let r = assemble_disk_image(&disk, "/tmp", &mut id, &mut indirect);
    assert_eq!(r, Ok(DiskFile { source: DiskSource::Image(FileHandle { id: 5 }), writable: true }));
    assert_eq!(id, 3);
    assert!(indirect.is_empty());
}

#[test]
fn disk_with_partitions_becomes_a_composite_image() {
    let disk = DiskImage {
        image: None,
        partitions: vec![partition("a", 11), partition("b", 12), partition("c", 13)],
        writable: false,
    };
    let mut id = 4u64;
    let mut indirect = vec![FileHandle { id: 1 }];
    let r = assemble_disk_image(&disk, "/tmp", &mut id, &mut indirect);
    assert_eq!(
        r,
        Ok(DiskFile { source: DiskSource::Composite(names("/tmp", 4)), writable: false })
    );
    assert_eq!(id, 5);
    assert_eq!(
        indirect,
        vec![FileHandle { id: 1 }, FileHandle { id: 11 }, FileHandle { id: 12 }, FileHandle { id: 13 }]
    );
}

#[test]
fn disks_of_a_machine_are_numbered_in_their_order() {
    let disks = vec![
        DiskImage { image: None, partitions: vec![partition("a", 1)], writable: false },
        DiskImage { image: Some(FileHandle { id: 2 }), partitions: vec![], writable: true },
        DiskImage {
            image: None,
            partitions: vec![partition("b", 3), partition("c", 4)],
            writable: true,
        },
    ];
    let all = assemble_disks(&disks, "/data/x").unwrap();
    assert_eq!(
        all.disks,
        vec![
            DiskFile { source: DiskSource::Composite(names("/data/x", 0)), writable: false },
            DiskFile { source: DiskSource::Image(FileHandle { id: 2 }), writable: true },
            DiskFile { source: DiskSource::Composite(names("/data/x", 1)), writable: true },
        ]
    );
    assert_eq!(
        all.indirect_files,
        vec![FileHandle { id: 1 }, FileHandle { id: 3 }, FileHandle { id: 4 }]
    );
    assert!(assemble_disks(&vec![], "/data/x").unwrap().disks.is_empty());
}

#[test]
fn one_wrong_disk_fails_the_whole_machine() {
    let disks = vec![
        DiskImage { image: Some(FileHandle { id: 2 }), partitions: vec![], writable: true },
        DiskImage { image: None, partitions: vec![], writable: true },
    ];
    assert!(matches!(assemble_disks(&disks, "/data/x"), Err(ErrorKind::IllegalArgument)));
}

#[test]
fn only_a_composite_image_needs_the_counter() {
    let both = DiskImage {
        image: Some(FileHandle { id: 1 }),
        partitions: vec![partition("a", 2)],
        writable: false,
    };
    let neither = DiskImage { image: None, partitions: vec![], writable: false };
    let image = DiskImage { image: Some(FileHandle { id: 5 }), partitions: vec![], writable: true };
    for disk in [&both, &neither] {
        let mut id = u64::MAX;
        let mut indirect = vec![FileHandle { id: 99 }];
        let r = assemble_disk_image(disk, "/tmp", &mut id, &mut indirect);
        assert_eq!(r, Err(ErrorKind::IllegalArgument));
        assert_eq!(id, u64::MAX);
        assert_eq!(indirect, vec![FileHandle { id: 99 }]);
    }
    let mut id = u64::MAX;
    let mut indirect = vec![];
    assert_eq!(
        assemble_disk_image(&image, "/tmp", &mut id, &mut indirect),
        Ok(DiskFile { source: DiskSource::Image(FileHandle { id: 5 }), writable: true })
    );
    assert_eq!(id, u64::MAX);
    assert!(indirect.is_empty());
}
