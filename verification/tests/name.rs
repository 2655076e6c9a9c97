use filler::generator::{Generator, NameGen};
use filler::name::{generate_name, generate_name_for, Country, CountryNames, NameConfig};
use filler::Error;

fn catalog(firsts: Vec<&str>, surs: Vec<&str>) -> NameConfig {
    NameConfig {
        usa: None,
        japan: Some(CountryNames {
            first_names: firsts.into_iter().map(String::from).collect(),
            surnames: surs.into_iter().map(String::from).collect(),
        }),
    }
}

#[test]
fn name_is_first_and_surname() {
    let config = catalog(vec!["Haruki"], vec!["Murakami"]);
    let name = generate_name(&config);
    assert_eq!(name, "Haruki Murakami");
}

#[test]
fn name_drawn_from_pools() {
    let config = catalog(vec!["Yoko", "Haruki"], vec!["Ogawa", "Murakami"]);
    for _ in 0..16 {
        let name = generate_name(&config);
        let mut parts = name.split(' ');
        let first = parts.next().unwrap();
        let surname = parts.next().unwrap();
        assert!(parts.next().is_none());
        assert!(first == "Yoko" || first == "Haruki");
        assert!(surname == "Ogawa" || surname == "Murakami");
    }
}

#[test]
fn empty_pools_fall_back() {
    let config = catalog(vec![], vec![]);
    let name = generate_name(&config);
    assert_eq!(name, "John Smith");
}

#[test]
fn one_empty_pool_falls_back_alone() {
    let config = catalog(vec!["Yoko"], vec![]);
    assert_eq!(generate_name(&config), "Yoko Smith");
    let config = catalog(vec![], vec!["Ogawa"]);
    assert_eq!(generate_name(&config), "John Ogawa");
}

#[test]
fn other_country_pool() {
    let config = NameConfig {
        usa: Some(CountryNames {
            first_names: vec![String::from("Ann")],
            surnames: vec![String::from("Lee")],
        }),
        japan: None,
    };
    assert_eq!(generate_name_for(&config, Country::Usa), "Ann Lee");
}

#[test]
fn missing_pool_is_config_error() {
    let config = NameConfig { usa: None, japan: None };
    let err = NameGen::new(config).err().unwrap();
    assert!(matches!(err, Error::ConfigError));
}

#[test]
fn name_gen_generates_from_catalog() {
    let config = catalog(vec!["Haruki"], vec!["Murakami"]);
    let gen = NameGen::new(config).unwrap();
    let names = gen.generate_many(3);
    assert_eq!(names.len(), 3);
    for n in &names {
        assert_eq!(n, "Haruki Murakami");
    }
}
