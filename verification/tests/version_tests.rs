use ektox::version::Version;

#[test]
fn version_it_works() {
    let str = "1.0.0";
    let version = Version::new(str);
    assert_eq!(version.get_major(), 1);
    assert_eq!(version.get_minor(), 0);
    assert_eq!(version.get_patch(), 0);
    assert_eq!(version.get_version(), str);
}

#[test]
fn from_cargo_package() {
    let env_version = Version::from_cargo_package();
    let test_version = Version::new("0.1.0");
    assert_eq!(env_version, test_version);
}

#[test]
fn compare() {
    let old_version = Version::new("1.0.0");
    let new_version = Version::new("1.0.1");
    assert!(old_version < new_version);

    let old_version = Version::new("1.0.5");
    let new_version = Version::new("2.0.1");
    assert!(new_version > old_version);

    let old_version = Version::new("1.1.1");
    let new_version = Version::new("1.1.1");
    assert!(new_version == old_version);
}

#[test]
fn version_renders_canonically() {
    let version = Version::new("01.20.003");
    assert_eq!(version.get_major(), 1);
    assert_eq!(version.get_minor(), 20);
    assert_eq!(version.get_patch(), 3);
    assert_eq!(version.get_version(), "1.20.3");
}

#[test]
fn compare_is_lexicographic() {
    assert!(Version::new("0.9.9") < Version::new("1.0.0"));
    assert!(Version::new("1.2.0") < Version::new("1.10.0"));
    assert!(Version::new("1.2.3") > Version::new("1.2.2"));
}
