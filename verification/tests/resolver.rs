use zip_blitz::{guess_file_type, resolve, TypeError};

const JPG: [u8; 2] = [0xFF, 0xD8];
const ZIP: [u8; 4] = [0x50, 0x4B, 0x03, 0x04];
const WMV: [u8; 16] = [
    0x30, 0x26, 0xB2, 0x75, 0x8E, 0x66, 0xCF, 0x11, 0xA6, 0xD9, 0x00, 0xAA, 0x00, 0x62, 0xCE, 0x6C,
];

#[test]
fn guess_file_type_takes_the_text_behind_the_last_dot() {
    assert_eq!(guess_file_type("kitten.jpg"), Ok(String::from("jpg")));
    assert_eq!(guess_file_type("a.tar.zip"), Ok(String::from("zip")));
    assert_eq!(guess_file_type(".hidden"), Ok(String::from("hidden")));
    assert_eq!(guess_file_type("dir.d/file.PNG"), Ok(String::from("PNG")));
    assert_eq!(guess_file_type("\u{444}\u{43e}\u{442}\u{43e}.jpg"), Ok(String::from("jpg")));
    assert_eq!(guess_file_type("x.\u{444}\u{43e}"), Ok(String::from("\u{444}\u{43e}")));
}

#[test]
fn guess_file_type_takes_a_name_without_dot_whole() {
    assert_eq!(guess_file_type("archive"), Ok(String::from("archive")));
    assert_eq!(guess_file_type("zip"), Ok(String::from("zip")));
}

#[test]
fn guess_file_type_refuses_an_empty_extension() {
    assert_eq!(guess_file_type(""), Err("failed to guess file type"));
    assert_eq!(guess_file_type("kitten."), Err("failed to guess file type"));
    assert_eq!(guess_file_type("."), Err("failed to guess file type"));
    assert_eq!(guess_file_type("a.b."), Err("failed to guess file type"));
}

#[test]
fn resolve_explicit_identifier_in_any_case() {
    let upper = resolve(Some(String::from("JPG")), String::from("kitten.jpg"));
    let lower = resolve(Some(String::from("jpg")), String::from("kitten.jpg"));
    let mixed = resolve(Some(String::from("jPg")), String::from("kitten.jpg"));
    assert_eq!(lower, Ok(JPG.to_vec()));
    assert_eq!(upper, lower);
    assert_eq!(mixed, lower);
}

#[test]
fn resolve_prefers_the_explicit_identifier() {
    assert_eq!(resolve(Some(String::from("zip")), String::from("kitten.jpg")), Ok(ZIP.to_vec()));
    assert_eq!(resolve(Some(String::from("WMA")), String::from("")), Ok(WMV.to_vec()));
    assert_eq!(
        resolve(Some(String::from("exe")), String::from("kitten.jpg")),
        Err(TypeError::UnknownFileType)
    );
    assert_eq!(
        resolve(Some(String::from("")), String::from("kitten.jpg")),
        Err(TypeError::UnknownFileType)
    );
}

#[test]
fn resolve_by_extension() {
    assert_eq!(resolve(None, String::from("kitten.jpg")), Ok(JPG.to_vec()));
    assert_eq!(resolve(None, String::from("KITTEN.JPG")), Ok(JPG.to_vec()));
    assert_eq!(resolve(None, String::from("app.release.apk")), Ok(ZIP.to_vec()));
    assert_eq!(resolve(None, String::from("kitten.gif")), Err(TypeError::UnknownFileType));
}

#[test]
fn resolve_takes_a_name_without_dot_as_the_identifier() {
    assert_eq!(resolve(None, String::from("archive")), Err(TypeError::UnknownFileType));
    assert_eq!(resolve(None, String::from("zip")), Ok(ZIP.to_vec()));
}

#[test]
fn resolve_reports_a_missing_extension() {
    assert_eq!(resolve(None, String::from("")), Err(TypeError::NoExtension));
    assert_eq!(resolve(None, String::from("kitten.")), Err(TypeError::NoExtension));
    assert_eq!(resolve(None, String::from("a.b.")), Err(TypeError::NoExtension));
}
