use design_patterns::singleton::Singleton;
use once_cell::sync::Lazy;
use std::sync::Mutex;

static SINGLETON: Lazy<Singleton> = Lazy::new(Singleton::new);

static SINGLETON_MUT: Lazy<Mutex<Singleton>> = Lazy::new(|| Mutex::new(Singleton::new()));

#[test]
fn singleton_test() {
    let si = &SINGLETON;
    let s = si.name();
    println!("name = {}", s);
    assert_eq!(s, "TEST");
}

#[test]
fn test_mut() {
    let si = &SINGLETON_MUT.lock().unwrap();
    let s = si.name();
    println!("name = {}", s);
    assert_eq!(s, "TEST");
}
