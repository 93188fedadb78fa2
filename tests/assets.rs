use std::io::Write;

use xray_pack::checksum::{check_digest, first_token_of, to_hex, verify_sha256};
use xray_pack::cli::Region;
use xray_pack::download::geodat::geodat_assets;
use xray_pack::download::wintun::{dll_member, extract_wintun, WinPlatform};
use xray_pack::errors::PackError;

const ABC_SHA256: &str = "ba7816bf8f01cfea414140de5dae2223b00361a396177a9cb410ff61f20015ad";
const EMPTY_SHA256: &str = "e3b0c44298fc1c149afbf4c8996fb92427ae41e4649b934ca495991b7852b855";

fn driver_archive() -> Vec<u8> {
    let mut w = zip::ZipWriter::new(std::io::Cursor::new(Vec::new()));
    let opts = zip::write::SimpleFileOptions::default()
        .compression_method(zip::CompressionMethod::Deflated);
    for arch in ["x86", "amd64", "arm", "arm64"] {
        w.start_file(format!("wintun/bin/{arch}/wintun.dll"), opts).unwrap();
        w.write_all(format!("driver for {arch}").as_bytes()).unwrap();
    }
    w.start_file("wintun/LICENSE.txt", opts).unwrap();
    w.write_all(b"license text").unwrap();
    w.finish().unwrap().into_inner()
}

#[test]
fn china_mainland_geodat_assets() {
    let assets = geodat_assets(Region::ChinaMainland);
    let base = "https://raw.githubusercontent.com/Loyalsoldier/v2ray-rules-dat/release/";
    assert_eq!(assets.len(), 2);
    assert_eq!(assets[0].file_name, "geoip.dat");
    assert_eq!(assets[0].url, format!("{base}geoip.dat"));
    assert_eq!(assets[0].checksum_url, format!("{base}geoip.dat.sha256sum"));
    assert_eq!(assets[1].file_name, "geosite.dat");
    assert_eq!(assets[1].url, format!("{base}geosite.dat"));
    assert_eq!(assets[1].checksum_url, format!("{base}geosite.dat.sha256sum"));
}

#[test]
fn iran_geodat_assets() {
    let assets = geodat_assets(Region::Iran);
    assert_eq!(
        assets[1].checksum_url,
        "https://raw.githubusercontent.com/Chocolate4U/Iran-v2ray-rules/release/geosite.dat.sha256sum"
    );
}

#[test]
fn hex_encoding() {
    assert_eq!(to_hex(&[0x00, 0x0f, 0xa5, 0xff]), "000fa5ff");
    assert_eq!(to_hex(&[]), "");
}

#[test]
fn first_token_skips_file_name() {
    assert_eq!(first_token_of("abc123  geoip.dat\n"), "abc123");
    assert_eq!(first_token_of("\n\t abc123\tgeoip.dat"), "abc123");
    assert_eq!(first_token_of("abc123"), "abc123");
    assert_eq!(first_token_of("   "), "");
    assert_eq!(first_token_of(""), "");
}

#[test]
fn sha256_of_known_contents() {
    assert!(verify_sha256(b"abc", ABC_SHA256).is_ok());
    assert!(verify_sha256(b"", EMPTY_SHA256).is_ok());
    let published = format!("{ABC_SHA256}  geoip.dat\n");
    assert!(verify_sha256(b"abc", &published).is_ok());
}

#[test]
fn checksum_ignores_case() {
    assert!(verify_sha256(b"abc", &ABC_SHA256.to_uppercase()).is_ok());
}

#[test]
fn checksum_is_deterministic() {
    let published = format!("{ABC_SHA256} geoip.dat");
    for _ in 0..3 {
        assert!(verify_sha256(b"abc", &published).is_ok());
        assert!(verify_sha256(b"abd", &published).is_err());
    }
}

#[test]
fn corrupted_byte_fails_checksum() {
    let mut contents = b"geo database contents".to_vec();
    let published = {
        let r = verify_sha256(&contents, "0");
        match r {
            Err(PackError::ChecksumFailed { got, .. }) => format!("{got}  geoip.dat"),
            other => panic!("unexpected {:?}", other),
        }
    };
    assert!(verify_sha256(&contents, &published).is_ok());
    contents[3] ^= 0x01;
    match verify_sha256(&contents, &published) {
        Err(PackError::ChecksumFailed { expected, got }) => {
            assert_eq!(expected, published.split_whitespace().next().unwrap());
            assert_ne!(got, expected);
            assert_eq!(got.len(), 64);
        }
        other => panic!("unexpected {:?}", other),
    }
}

#[test]
fn checksum_mismatch_names_both_values() {
    match check_digest(&[0xab, 0xcd], "abce file") {
        Err(PackError::ChecksumFailed { expected, got }) => {
            assert_eq!(expected, "abce");
            assert_eq!(got, "abcd");
        }
        other => panic!("unexpected {:?}", other),
    }
    assert!(check_digest(&[0xab, 0xcd], "ABCD file").is_ok());
    assert!(check_digest(&[0xab, 0xcd], "").is_err());
}

#[test]
fn win_platform_names() {
    assert_eq!(WinPlatform::parse("x86"), Some(WinPlatform::X86));
    assert_eq!(WinPlatform::parse("386"), Some(WinPlatform::X86));
    assert_eq!(WinPlatform::parse("AMD64"), Some(WinPlatform::Amd64));
    assert_eq!(WinPlatform::parse("arm"), Some(WinPlatform::Arm));
    assert_eq!(WinPlatform::parse("Arm64"), Some(WinPlatform::Arm64));
    assert_eq!(WinPlatform::parse("riscv64"), None);
    assert_eq!(WinPlatform::Arm64.name(), "arm64");
    assert_eq!(dll_member(WinPlatform::Arm64), "wintun/bin/arm64/wintun.dll");
    assert_eq!(dll_member(WinPlatform::X86), "wintun/bin/x86/wintun.dll");
}

#[test]
fn windows_arm64_driver_extracted() {
    let archive = driver_archive();
    let files = extract_wintun(WinPlatform::Arm64, &archive).unwrap();
    assert_eq!(files.dll, b"driver for arm64".to_vec());
    assert_eq!(files.license, b"license text".to_vec());
    let files = extract_wintun(WinPlatform::Amd64, &archive).unwrap();
    assert_eq!(files.dll, b"driver for amd64".to_vec());
}

#[test]
fn missing_member_is_zip_error() {
    let mut w = zip::ZipWriter::new(std::io::Cursor::new(Vec::new()));
    let opts = zip::write::SimpleFileOptions::default();
    w.start_file("wintun/LICENSE.txt", opts).unwrap();
    w.write_all(b"license text").unwrap();
    let archive = w.finish().unwrap().into_inner();
    assert!(matches!(extract_wintun(WinPlatform::X86, &archive), Err(PackError::ZipError(_))));
    assert!(matches!(extract_wintun(WinPlatform::X86, b"not a zip"), Err(PackError::ZipError(_))));
}
