use command_dispatch::cache::Cache;

fn name(text: &str) -> String {
    text.to_string()
}

#[test]
fn new_cache_is_empty() {
    let cache: Cache<u32> = Cache::new();
    assert!(!cache.contains(&name("echo")));
    assert_eq!(cache.get(&name("echo")), None);
    assert_eq!(cache.get(&name("")), None);
}

#[test]
fn insert_then_get() {
    let mut cache: Cache<u32> = Cache::new();
    cache.insert(name("echo"), 7);
    assert!(cache.contains(&name("echo")));
    assert_eq!(cache.get(&name("echo")), Some(&7));
    assert_eq!(cache.get(&name("ech")), None);
    assert_eq!(cache.get(&name("echo ")), None);
}

#[test]
fn insert_keeps_other_entries() {
    let mut cache: Cache<&str> = Cache::new();
    cache.insert(name("a"), "first");
    cache.insert(name("b"), "second");
    cache.insert(name(""), "nameless");
    assert_eq!(cache.get(&name("a")), Some(&"first"));
    assert_eq!(cache.get(&name("b")), Some(&"second"));
    assert_eq!(cache.get(&name("")), Some(&"nameless"));
}

#[test]
fn insert_replaces_the_module_of_a_cached_name() {
    let mut cache: Cache<u32> = Cache::new();
    cache.insert(name("a"), 1);
    cache.insert(name("b"), 2);
    cache.insert(name("a"), 3);
    assert_eq!(cache.get(&name("a")), Some(&3));
    assert_eq!(cache.get(&name("b")), Some(&2));
}

#[test]
fn cache_holds_many_names() {
    let mut cache: Cache<usize> = Cache::new();
    for i in 0..200 {
        cache.insert(format!("command-{i}"), i);
    }
    for i in 0..200 {
        assert_eq!(cache.get(&format!("command-{i}")), Some(&i));
    }
    assert!(!cache.contains(&name("command-200")));
}
