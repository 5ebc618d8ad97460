use zip_blitz::file_type::FileType;
use zip_blitz::registry::lookup;
use zip_blitz::text::{chars_of, lower, normalize, spells};
use zip_blitz::{get_header, Archive, Jpg, Wmv};

const WMV: [u8; 16] = [
    0x30, 0x26, 0xB2, 0x75, 0x8E, 0x66, 0xCF, 0x11, 0xA6, 0xD9, 0x00, 0xAA, 0x00, 0x62, 0xCE, 0x6C,
];
const PNG: [u8; 8] = [0x89, 0x50, 0x4E, 0x47, 0x0D, 0x0A, 0x1A, 0x0A];
const JPG: [u8; 2] = [0xFF, 0xD8];
const ZIP: [u8; 4] = [0x50, 0x4B, 0x03, 0x04];
const XML: [u8; 6] = [0x3C, 0x3F, 0x78, 0x6D, 0x6C, 0x20];

#[test]
fn get_header_knows_the_windows_media_aliases() {
    assert_eq!(get_header("asf"), Some(WMV.to_vec()));
    assert_eq!(get_header("wma"), Some(WMV.to_vec()));
    assert_eq!(get_header("wmv"), Some(WMV.to_vec()));
}

#[test]
fn get_header_knows_png() {
    assert_eq!(get_header("png"), Some(PNG.to_vec()));
}

#[test]
fn get_header_knows_jpg() {
    assert_eq!(get_header("jpg"), Some(JPG.to_vec()));
}

#[test]
fn get_header_knows_the_zip_aliases() {
    assert_eq!(get_header("zip"), Some(ZIP.to_vec()));
    assert_eq!(get_header("apk"), Some(ZIP.to_vec()));
    assert_eq!(get_header("jar"), Some(ZIP.to_vec()));
}

#[test]
fn get_header_knows_xml() {
    assert_eq!(get_header("xml"), Some(XML.to_vec()));
}

#[test]
fn get_header_has_nothing_for_other_strings() {
    assert_eq!(get_header(""), None);
    assert_eq!(get_header("exe"), None);
    assert_eq!(get_header("jpeg"), None);
    assert_eq!(get_header("jp"), None);
    assert_eq!(get_header("jpgg"), None);
    assert_eq!(get_header("jpg "), None);
    assert_eq!(get_header(".jpg"), None);
    assert_eq!(get_header("archive"), None);
    assert_eq!(get_header("x\u{43c}l"), None);
}

#[test]
fn get_header_does_not_fold_capitals() {
    assert_eq!(get_header("JPG"), None);
    assert_eq!(get_header("Png"), None);
}

#[test]
fn lookup_finds_each_format() {
    assert_eq!(lookup(&vec!['w', 'm', 'v']), Some(FileType::Wmv));
    assert_eq!(lookup(&vec!['p', 'n', 'g']), Some(FileType::Png));
    assert_eq!(lookup(&vec!['j', 'p', 'g']), Some(FileType::Jpg));
    assert_eq!(lookup(&vec!['j', 'a', 'r']), Some(FileType::Archive));
    assert_eq!(lookup(&vec!['x', 'm', 'l']), Some(FileType::Xml));
    assert_eq!(lookup(&vec!['x', 'm']), None);
    assert_eq!(lookup(&Vec::new()), None);
}

#[test]
fn file_type_signatures_are_the_documented_bytes() {
    assert_eq!(FileType::Wmv.signature(), WMV.to_vec());
    assert_eq!(FileType::Png.signature(), PNG.to_vec());
    assert_eq!(FileType::Jpg.signature(), JPG.to_vec());
    assert_eq!(FileType::Archive.signature(), ZIP.to_vec());
    assert_eq!(FileType::Xml.signature(), XML.to_vec());
}

#[test]
fn default_headers_are_the_signatures() {
    assert_eq!(Wmv::default().header, WMV.to_vec());
    assert_eq!(Jpg::default().header, JPG.to_vec());
    assert_eq!(Archive::default().header, ZIP.to_vec());
    assert_eq!(Wmv::default(), Wmv { header: WMV.to_vec() });
    assert_eq!(Jpg::default(), Jpg { header: vec![0xFF, 0xD8] });
    assert_eq!(Archive::default(), Archive { header: vec![0x50, 0x4B, 0x03, 0x04] });
}

#[test]
fn default_headers_agree_with_the_table() {
    assert_eq!(Some(Wmv::default().header), get_header("wmv"));
    assert_eq!(Some(Jpg::default().header), get_header("jpg"));
    assert_eq!(Some(Archive::default().header), get_header("zip"));
}

#[test]
fn chars_of_gives_every_character() {
    assert_eq!(chars_of(""), Vec::<char>::new());
    assert_eq!(chars_of("a.b"), vec!['a', '.', 'b']);
    assert_eq!(chars_of("\u{444}\u{43e}.jpg"), vec!['\u{444}', '\u{43e}', '.', 'j', 'p', 'g']);
}

#[test]
fn spells_compares_whole_strings() {
    assert!(spells(&vec!['j', 'p', 'g'], "jpg"));
    assert!(!spells(&vec!['j', 'p', 'g'], "jpe"));
    assert!(!spells(&vec!['j', 'p'], "jpg"));
    assert!(!spells(&vec!['j', 'p', 'g', 'x'], "jpg"));
    assert!(spells(&Vec::new(), ""));
}

#[test]
fn lower_folds_ascii_capitals_only() {
    assert_eq!(lower('A'), 'a');
    assert_eq!(lower('Z'), 'z');
    assert_eq!(lower('J'), 'j');
    assert_eq!(lower('a'), 'a');
    assert_eq!(lower('@'), '@');
    assert_eq!(lower('['), '[');
    assert_eq!(lower('7'), '7');
    assert_eq!(lower('.'), '.');
    assert_eq!(lower('\u{c4}'), '\u{c4}');
    assert_eq!(lower('\u{212a}'), '\u{212a}');
}

#[test]
fn normalize_folds_each_character() {
    assert_eq!(normalize(&vec!['J', 'p', 'G']), vec!['j', 'p', 'g']);
    assert_eq!(normalize(&vec!['x', '1', 'Y', '.']), vec!['x', '1', 'y', '.']);
    assert_eq!(normalize(&Vec::new()), Vec::<char>::new());
    let once = normalize(&vec!['W', 'm', 'V']);
    assert_eq!(normalize(&once), once);
}
