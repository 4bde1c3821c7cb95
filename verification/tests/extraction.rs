use taskbar_shortcuts::ico::{ico_image_count, ico_well_formed_check};
use taskbar_shortcuts::icon::extract_icon_from_exe;
use taskbar_shortcuts::shortcut::Icon;

fn put_u16(b: &mut Vec<u8>, off: usize, v: u16) {
    b[off] = v as u8;
    b[off + 1] = (v >> 8) as u8;
}

fn put_u32(b: &mut Vec<u8>, off: usize, v: u32) {
    b[off] = v as u8;
    b[off + 1] = (v >> 8) as u8;
    b[off + 2] = (v >> 16) as u8;
    b[off + 3] = (v >> 24) as u8;
}

/// A minimal executable image in file layout, in either width variant,
/// with one resource section holding one icon group (id 1) that points at
/// one sixteen-byte icon image (id 1).
fn build_image(wide: bool, with_resources: bool) -> Vec<u8> {
    let mut img = vec![0u8; 0x400];
    // DOS header
    img[0] = b'M';
    img[1] = b'Z';
    put_u32(&mut img, 0x3C, 0x40);
    // NT signature
    img[0x40] = b'P';
    img[0x41] = b'E';
    // File header
    let (machine, opt_size, magic): (u16, u16, u16) =
        if wide { (0x8664, 240, 0x20B) } else { (0x14C, 224, 0x10B) };
    put_u16(&mut img, 0x44, machine);
    put_u16(&mut img, 0x46, 1); // one section
    put_u16(&mut img, 0x54, opt_size);
    put_u16(&mut img, 0x56, 0x0022);
    // Optional header
    let opt = 0x58;
    put_u16(&mut img, opt, magic);
    put_u32(&mut img, opt + 56, 0x2000); // size of image
    put_u32(&mut img, opt + 60, 0x200); // size of headers
    let nrva = if wide { opt + 108 } else { opt + 92 };
    put_u32(&mut img, nrva, 16);
    let dd = nrva + 4;
    if with_resources {
        put_u32(&mut img, dd + 16, 0x1000); // resource directory rva
        put_u32(&mut img, dd + 20, 0x200); // resource directory size
    }
    // Section header: .rsrc at rva 0x1000, file offset 0x200
    let sec = opt + opt_size as usize;
    img[sec..sec + 5].copy_from_slice(b".rsrc");
    put_u32(&mut img, sec + 8, 0x200); // virtual size
    put_u32(&mut img, sec + 12, 0x1000); // virtual address
    put_u32(&mut img, sec + 16, 0x200); // size of raw data
    put_u32(&mut img, sec + 20, 0x200); // pointer to raw data
    // Resource section, offsets relative to 0x200
    let rs = 0x200;
    // root: two id entries, icon images (3) and icon groups (14)
    put_u16(&mut img, rs + 14, 2);
    put_u32(&mut img, rs + 16, 3);
    put_u32(&mut img, rs + 20, 0x8000_0030);
    put_u32(&mut img, rs + 24, 14);
    put_u32(&mut img, rs + 28, 0x8000_0080);
    // icon image id 1 -> language directory -> data entry
    put_u16(&mut img, rs + 0x30 + 14, 1);
    put_u32(&mut img, rs + 0x40, 1);
    put_u32(&mut img, rs + 0x44, 0x8000_0050);
    put_u16(&mut img, rs + 0x50 + 14, 1);
    put_u32(&mut img, rs + 0x60, 0x409);
    put_u32(&mut img, rs + 0x64, 0x70);
    put_u32(&mut img, rs + 0x70, 0x10F0); // icon image data rva
    put_u32(&mut img, rs + 0x74, 16); // icon image data size
    // icon group id 1 -> language directory -> data entry
    put_u16(&mut img, rs + 0x80 + 14, 1);
    put_u32(&mut img, rs + 0x90, 1);
    put_u32(&mut img, rs + 0x94, 0x8000_00A0);
    put_u16(&mut img, rs + 0xA0 + 14, 1);
    put_u32(&mut img, rs + 0xB0, 0x409);
    put_u32(&mut img, rs + 0xB4, 0xC0);
    put_u32(&mut img, rs + 0xC0, 0x10D0); // group data rva
    put_u32(&mut img, rs + 0xC4, 20); // group data size
    // the group: one entry, icon id 1, sixteen bytes
    put_u16(&mut img, rs + 0xD0 + 2, 1); // type: icon
    put_u16(&mut img, rs + 0xD0 + 4, 1); // count
    img[rs + 0xD6] = 16; // width
    img[rs + 0xD7] = 16; // height
    put_u16(&mut img, rs + 0xDA, 1); // planes
    put_u16(&mut img, rs + 0xDC, 32); // bit count
    put_u32(&mut img, rs + 0xDE, 16); // bytes in resource
    put_u16(&mut img, rs + 0xE2, 1); // icon id
    // the icon image payload
    for j in 0..16 {
        img[rs + 0xF0 + j] = 0xA0 + j as u8;
    }
    img
}

#[test]
fn wide_image_yields_well_formed_container() {
    let img = build_image(true, true);
    match extract_icon_from_exe(&img) {
        Some(Icon::Image(v)) => {
            assert!(ico_well_formed_check(&v));
            assert_eq!(ico_image_count(&v), Some(1));
            assert_eq!(v.len(), 6 + 16 + 16);
        },
        _ => panic!("expected an extracted icon"),
    }
}

#[test]
fn narrow_image_yields_well_formed_container() {
    let img = build_image(false, true);
    match extract_icon_from_exe(&img) {
        Some(Icon::Image(v)) => {
            assert!(ico_well_formed_check(&v));
            assert_eq!(ico_image_count(&v), Some(1));
            assert_eq!(v.len(), 6 + 16 + 16);
        },
        _ => panic!("expected an extracted icon"),
    }
}

#[test]
fn both_widths_yield_the_same_container() {
    let a = match extract_icon_from_exe(&build_image(true, true)) {
        Some(Icon::Image(v)) => v,
        _ => panic!("expected an extracted icon"),
    };
    let b = match extract_icon_from_exe(&build_image(false, true)) {
        Some(Icon::Image(v)) => v,
        _ => panic!("expected an extracted icon"),
    };
    assert_eq!(a, b);
}

#[test]
fn extracted_container_is_reassembled_not_copied() {
    let img = build_image(true, true);
    match extract_icon_from_exe(&img) {
        Some(Icon::Image(v)) => {
            assert_ne!(v, img);
            // directory header first, then the entry pointing right
            // behind the directory, then the payload
            assert_eq!(&v[0..6], &[0, 0, 1, 0, 1, 0]);
            assert_eq!(v[6], 16);
            assert_eq!(v[7], 16);
            assert_eq!(&v[18..22], &[22, 0, 0, 0]);
            assert_eq!(v[22], 0xA0);
            assert_eq!(v[37], 0xAF);
        },
        _ => panic!("expected an extracted icon"),
    }
}

#[test]
fn image_without_resources_yields_none() {
    let img = build_image(true, false);
    assert!(extract_icon_from_exe(&img).is_none());
    let img = build_image(false, false);
    assert!(extract_icon_from_exe(&img).is_none());
}

#[test]
fn oversized_declared_entry_yields_none() {
    // The group's only entry declares the largest possible byte size;
    // reassembling it would overflow a thirty-two-bit offset counter,
    // so the wrapper refuses the group before reassembly.
    for wide in [true, false] {
        let mut img = build_image(wide, true);
        put_u32(&mut img, 0x200 + 0xDE, 0xFFFF_FFFF);
        assert!(extract_icon_from_exe(&img).is_none());
    }
}

#[test]
fn entry_size_mismatch_yields_none() {
    // The entry declares twelve bytes but its image data holds sixteen:
    // the reassembled bytes contradict their own directory, and the
    // container check rejects them.
    let mut img = build_image(true, true);
    put_u32(&mut img, 0x200 + 0xDE, 12);
    assert!(extract_icon_from_exe(&img).is_none());
}

#[test]
fn empty_icon_group_yields_none() {
    // A group with no entries reassembles to a container with no
    // images, which is no usable icon and is rejected.
    let mut img = build_image(true, true);
    put_u16(&mut img, 0x200 + 0xD4, 0); // group entry count
    put_u32(&mut img, 0x200 + 0xC4, 6); // group data holds only the header
    assert!(extract_icon_from_exe(&img).is_none());
}

#[test]
fn garbage_bytes_yield_none() {
    assert!(extract_icon_from_exe(&vec![]).is_none());
    assert!(extract_icon_from_exe(&vec![1, 2, 3, 4]).is_none());
    assert!(extract_icon_from_exe(&vec![0x4D, 0x5A, 0, 0]).is_none());
}

fn handmade_container() -> Vec<u8> {
    let mut v = vec![0u8; 6 + 16 + 4];
    put_u16(&mut v, 2, 1); // type
    put_u16(&mut v, 4, 1); // count
    put_u32(&mut v, 6 + 8, 4); // size
    put_u32(&mut v, 6 + 12, 22); // offset
    v
}

#[test]
fn container_checker_accepts_exact_layout() {
    let v = handmade_container();
    assert!(ico_well_formed_check(&v));
    assert_eq!(ico_image_count(&v), Some(1));
}

#[test]
fn container_checker_rejects_bad_reserved_field() {
    let mut v = handmade_container();
    put_u16(&mut v, 0, 1);
    assert!(!ico_well_formed_check(&v));
}

#[test]
fn container_checker_rejects_wrong_type() {
    let mut v = handmade_container();
    put_u16(&mut v, 2, 2);
    assert!(!ico_well_formed_check(&v));
}

#[test]
fn container_checker_rejects_misplaced_image() {
    let mut v = handmade_container();
    put_u32(&mut v, 6 + 12, 23);
    assert!(!ico_well_formed_check(&v));
}

#[test]
fn container_checker_rejects_length_mismatch() {
    let mut v = handmade_container();
    v.push(0);
    assert!(!ico_well_formed_check(&v));
}

#[test]
fn container_checker_rejects_truncated_header() {
    let v = vec![0u8; 5];
    assert!(!ico_well_formed_check(&v));
    assert_eq!(ico_image_count(&v), None);
}
