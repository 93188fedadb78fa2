use xray_pack::cli::{CompileTarget, GoTarget, XrayCompileOptions};
use xray_pack::package::{archive_entries, archive_name, base_name, package_files, CollectedFiles};
use xray_pack::pipeline::{Pipeline, Stage};

fn xray(version: &str) -> CompileTarget {
    CompileTarget::Xray {
        compile_options: XrayCompileOptions { gcflags: "all:-l=4".to_string(), ldflags: None },
        xray_version: version.to_string(),
    }
}

fn go(goos: &str, goarch: &str) -> GoTarget {
    GoTarget { goos: goos.to_string(), goarch: goarch.to_string() }
}

fn names(files: &[&str]) -> Vec<String> {
    let v: Vec<String> = files.iter().map(|s| s.to_string()).collect();
    archive_entries(&v).into_iter().map(|e| e.name).collect()
}

#[test]
fn archive_name_template() {
    assert_eq!(
        archive_name(&xray("main"), "v1.8.4-2-g0123456", &go("linux", "amd64")),
        "xray-v1.8.4-2-g0123456-amd64-linux.zip"
    );
    let v2 = CompileTarget::V2ray {
        compile_options: XrayCompileOptions { gcflags: String::new(), ldflags: None },
        v2ray_version: "master".to_string(),
    };
    assert_eq!(archive_name(&v2, "v5.1.0", &go("windows", "arm64")), "v2ray-v5.1.0-arm64-windows.zip");
}

#[test]
fn base_names() {
    assert_eq!(base_name("/tmp/w/geoip.dat"), "geoip.dat");
    assert_eq!(base_name("geoip.dat"), "geoip.dat");
    assert_eq!(base_name("/tmp/w/"), "");
    assert_eq!(base_name(""), "");
}

#[test]
fn collected_files_then_docs() {
    let mut c = CollectedFiles::new();
    assert_eq!(c.len(), 0);
    c.push("/tmp/w/xray".to_string());
    c.push("/tmp/w/geoip.dat".to_string());
    assert_eq!(c.len(), 2);
    assert_eq!(
        package_files(&c, "/src/Xray-core"),
        vec!["/tmp/w/xray", "/tmp/w/geoip.dat", "/src/Xray-core/README.md", "/src/Xray-core/LICENSE"]
    );
}

#[test]
fn linux_amd64_archive_contents() {
    let mut c = CollectedFiles::new();
    for p in ["/tmp/w/xray", "/tmp/w/geoip.dat", "/tmp/w/geosite.dat"] {
        c.push(p.to_string());
    }
    let files = package_files(&c, "/src/Xray-core/");
    let entries: Vec<String> = archive_entries(&files).into_iter().map(|e| e.name).collect();
    assert_eq!(entries, vec!["xray", "geoip.dat", "geosite.dat", "README.md", "LICENSE"]);
}

#[test]
fn windows_arm64_archive_contents() {
    let mut c = CollectedFiles::new();
    for p in [
        "/tmp/w/xray.exe",
        "/tmp/w/geoip.dat",
        "/tmp/w/geosite.dat",
        "/tmp/w/wintun.dll",
        "/tmp/w/LICENSE-wintun.txt",
    ] {
        c.push(p.to_string());
    }
    let files = package_files(&c, "/src/Xray-core");
    let entries: Vec<String> = archive_entries(&files).into_iter().map(|e| e.name).collect();
    assert_eq!(
        entries,
        vec!["xray.exe", "geoip.dat", "geosite.dat", "wintun.dll", "LICENSE-wintun.txt", "README.md", "LICENSE"]
    );
}

#[test]
fn same_base_name_last_wins() {
    let files: Vec<String> =
        vec!["/a/LICENSE".to_string(), "/b/geoip.dat".to_string(), "/c/LICENSE".to_string()];
    let entries = archive_entries(&files);
    assert_eq!(entries.len(), 2);
    assert_eq!(entries[0].name, "geoip.dat");
    assert_eq!(entries[1].name, "LICENSE");
    assert_eq!(entries[1].source, "/c/LICENSE");
    assert_eq!(names(&[]), Vec::<String>::new());
    assert_eq!(names(&["x/a", "y/a", "z/a"]), vec!["a"]);
}

fn run(goos: &str, outcomes: &[bool]) -> (Vec<Stage>, Pipeline) {
    let mut p = Pipeline::new(goos);
    let mut ran = Vec::new();
    for ok in outcomes {
        match p.current() {
            Some(stage) => ran.push(stage),
            None => break,
        }
        p.advance(*ok);
    }
    (ran, p)
}

#[test]
fn linux_run_has_no_driver_stage() {
    let (ran, p) = run("linux", &[true; 10]);
    assert_eq!(
        ran,
        vec![Stage::CheckPrerequisites, Stage::ResolveRevision, Stage::Compile, Stage::FetchGeoData, Stage::Package]
    );
    assert!(p.is_finished());
    assert!(!p.has_failed());
}

#[test]
fn windows_run_has_driver_stage() {
    let (ran, p) = run("Windows", &[true; 10]);
    assert_eq!(
        ran,
        vec![
            Stage::CheckPrerequisites,
            Stage::ResolveRevision,
            Stage::Compile,
            Stage::FetchGeoData,
            Stage::FetchDriver,
            Stage::Package
        ]
    );
    assert!(p.is_finished());
}

#[test]
fn unknown_version_stops_before_compile() {
    let (ran, p) = run("linux", &[true, false, true, true, true]);
    assert_eq!(ran, vec![Stage::CheckPrerequisites, Stage::ResolveRevision]);
    assert!(p.has_failed());
    assert!(!p.is_finished());
    assert_eq!(p.current(), None);
}
