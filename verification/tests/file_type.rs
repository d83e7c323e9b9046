use astro_up_manifests::audit_types::FileType;
use astro_up_manifests::file_type::{detect_file_type, zip_contains_installer, zip_entry_names};

#[test]
fn pe_exe() {
    let mut b = vec![0x4D, 0x5A];
    b.extend_from_slice(&[0; 510]);
    assert_eq!(detect_file_type(&b), FileType::PeExe);
}

#[test]
fn zip() {
    assert_eq!(detect_file_type(&[0x50, 0x4B, 0x03, 0x04, 0, 0, 0, 0]), FileType::Zip);
}

#[test]
fn msi() {
    assert_eq!(detect_file_type(&[0xD0, 0xCF, 0x11, 0xE0, 0xA1, 0xB1, 0x1A, 0xE1]), FileType::Msi);
}

#[test]
fn nsis_nullsoft() {
    let mut b = vec![0x4D, 0x5A];
    b.extend_from_slice(&[0; 100]);
    b.extend_from_slice(b"NullsoftInst");
    b.extend_from_slice(&[0; 100]);
    assert_eq!(detect_file_type(&b), FileType::Nsis);
}

#[test]
fn nsis_magic() {
    let mut b = vec![0x4D, 0x5A];
    b.extend_from_slice(&[0; 100]);
    b.extend_from_slice(&[0xEF, 0xBE, 0xAD, 0xDE]);
    b.extend_from_slice(&[0; 100]);
    assert_eq!(detect_file_type(&b), FileType::Nsis);
}

#[test]
fn inno_setup() {
    let mut b = vec![0x4D, 0x5A];
    b.extend_from_slice(&[0; 100]);
    b.extend_from_slice(b"Inno Setup Setup Data (6.3.3)");
    b.extend_from_slice(&[0; 100]);
    assert_eq!(detect_file_type(&b), FileType::InnoSetup);
}

#[test]
fn unknown() {
    assert_eq!(detect_file_type(&[]), FileType::Unknown);
    assert_eq!(detect_file_type(&[0x7F, 0x45, 0x4C, 0x46]), FileType::Unknown);
}

fn zip_with_entry(name: &[u8]) -> Vec<u8> {
    let mut b = vec![0x50, 0x4B, 0x03, 0x04];
    b.extend_from_slice(&[0; 100]);
    b.extend_from_slice(&[0x50, 0x4B, 0x01, 0x02]);
    b.extend_from_slice(&[0; 24]);
    b.extend_from_slice(&u16::try_from(name.len()).unwrap().to_le_bytes());
    b.extend_from_slice(&[0; 16]);
    b.extend_from_slice(name);
    b.extend_from_slice(&[0; 50]);
    b
}

#[test]
fn zip_with_exe_inside() {
    assert!(zip_contains_installer(&zip_with_entry(b"setup.exe")));
}

#[test]
fn zip_without_installer() {
    assert!(!zip_contains_installer(&zip_with_entry(b"readme.txt")));
}

#[test]
fn zip_entry_with_upper_case_msi() {
    assert!(zip_contains_installer(&zip_with_entry(b"x64/Driver.MSI")));
}

#[test]
fn zip_entry_names_lists_entries() {
    let mut b = zip_with_entry(b"a.txt");
    b.extend_from_slice(&zip_with_entry(b"dir/b.exe")[4..]);
    let names = zip_entry_names(&b);
    assert_eq!(names, vec![b"a.txt".to_vec(), b"dir/b.exe".to_vec()]);
    assert!(zip_contains_installer(&b));
}

#[test]
fn zip_entry_name_past_end_is_ignored() {
    let mut b = vec![0x50, 0x4B, 0x03, 0x04];
    b.extend_from_slice(&[0x50, 0x4B, 0x01, 0x02]);
    b.extend_from_slice(&[0; 24]);
    b.extend_from_slice(&200u16.to_le_bytes());
    b.extend_from_slice(&[0; 30]);
    assert!(zip_entry_names(&b).is_empty());
    assert!(!zip_contains_installer(&b));
}

#[test]
fn install_method_mapping() {
    assert_eq!(FileType::InnoSetup.as_install_method(), "inno_setup");
    assert_eq!(FileType::Unknown.as_install_method(), "exe");
    assert!(FileType::PeExe.matches_install_method("burn"));
    assert!(!FileType::Unknown.matches_install_method("exe"));
    assert!(FileType::Msi.matches_install_method(FileType::Msi.as_install_method()));
    assert!(FileType::Zip.is_zip());
    assert!(!FileType::Msi.is_zip());
}

#[test]
fn zip_entry_with_other_final_extension_is_no_installer() {
    assert!(!zip_contains_installer(&zip_with_entry(b"setup.exe.txt")));
    assert!(!zip_contains_installer(&zip_with_entry(b"pkg.msix")));
    assert!(zip_contains_installer(&zip_with_entry(b"bin/Setup.Exe")));
}

#[test]
fn zip_entry_named_only_by_its_dot_is_no_installer() {
    assert!(!zip_contains_installer(&zip_with_entry(b".exe")));
    assert!(!zip_contains_installer(&zip_with_entry(b"dir/.msi")));
}
