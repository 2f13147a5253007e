use ip7z::ffi::{handler_clsid, linux_library_candidates, linux_not_found_message, macos_library_candidates, select_library, Z7Formats, Z7IGroups};

#[test]
fn interface_ids() {
    let g = Z7IGroups::ICoder.iface_iid(0x60);
    assert_eq!(g.data1, 0x23170F69);
    assert_eq!(g.data2, 0x40C1);
    assert_eq!(g.data3, 0x278A);
    assert_eq!(g.data4, [0, 0, 0, 4, 0, 0x60, 0, 0]);
    assert_eq!(Z7IGroups::IFolderManager.iface_iid(5).data4, [0, 0, 0, 9, 0, 5, 0, 0]);
}

#[test]
fn format_class_ids() {
    let h = Z7Formats::Z7.handler_clsid();
    assert_eq!((h.data1, h.data2, h.data3), (0x23170F69, 0x40C1, 0x278A));
    assert_eq!(h.data4, [0x10, 0, 0, 0x01, 0x10, 0x07, 0, 0]);
    assert_eq!(Z7Formats::GZip.decoder_clsid().data3, 0x2790);
    assert_eq!(Z7Formats::GZip.encoder_clsid().data3, 0x2791);
    assert_eq!(Z7Formats::GZip.hasher_clsid().data3, 0x2792);
    assert_eq!(Z7Formats::GZip.hasher_clsid().data4[5], 0xEF);
    assert_eq!(Z7Formats::Chm.id(), 0xE9);
    assert_eq!(handler_clsid(0x0C).data4, Z7Formats::Xz.handler_clsid().data4);
}

#[test]
fn library_search() {
    let linux = linux_library_candidates();
    assert_eq!(linux, vec!["/usr/lib/7zip/7z.so", "/usr/libexec/7zip/7z.so", "/usr/lib/p7zip/7z.so"]);
    assert_eq!(macos_library_candidates(), vec!["/usr/local/lib/7z.so"]);
    assert_eq!(select_library(&vec![false, true, true]), Some(1));
    assert_eq!(select_library(&vec![false, false]), None);
    assert_eq!(select_library(&vec![]), None);
    assert!(linux_not_found_message().starts_with("could not find 7z.so"));
}
