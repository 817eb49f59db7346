use download_supervisor::registry::JobRegistry;

fn id(text: &str) -> String {
    String::from(text)
}

#[test]
fn new_registry_holds_nothing() {
    let mut registry: JobRegistry<u32> = JobRegistry::new();
    assert!(!registry.contains(&id("download_1")));
    assert_eq!(registry.take(&id("download_1")), None);
}

#[test]
fn register_then_take_hands_out_the_handle() {
    let mut registry: JobRegistry<u32> = JobRegistry::new();
    assert_eq!(registry.register(id("download_1"), 11), Ok(()));
    assert!(registry.contains(&id("download_1")));
    assert_eq!(registry.take(&id("download_1")), Some(11));
    assert!(!registry.contains(&id("download_1")));
}

#[test]
fn second_take_of_the_same_id_finds_nothing() {
    let mut registry: JobRegistry<u32> = JobRegistry::new();
    assert_eq!(registry.register(id("download_7"), 70), Ok(()));
    let first = registry.take(&id("download_7"));
    let second = registry.take(&id("download_7"));
    assert_eq!(first, Some(70));
    assert_eq!(second, None);
}

#[test]
fn take_leaves_the_other_jobs() {
    let mut registry: JobRegistry<u32> = JobRegistry::new();
    assert_eq!(registry.register(id("a"), 1), Ok(()));
    assert_eq!(registry.register(id("b"), 2), Ok(()));
    assert_eq!(registry.register(id("c"), 3), Ok(()));
    assert_eq!(registry.take(&id("b")), Some(2));
    assert!(registry.contains(&id("a")));
    assert!(!registry.contains(&id("b")));
    assert!(registry.contains(&id("c")));
    assert_eq!(registry.take(&id("c")), Some(3));
    assert_eq!(registry.take(&id("a")), Some(1));
    assert_eq!(registry.take(&id("a")), None);
}

#[test]
fn register_of_a_live_id_fails_and_gives_the_handle_back() {
    let mut registry: JobRegistry<u32> = JobRegistry::new();
    assert_eq!(registry.register(id("download_1"), 1), Ok(()));
    assert_eq!(registry.register(id("download_1"), 2), Err(2));
    assert_eq!(registry.take(&id("download_1")), Some(1));
}

#[test]
fn an_id_can_be_registered_again_after_it_was_taken() {
    let mut registry: JobRegistry<u32> = JobRegistry::new();
    assert_eq!(registry.register(id("download_1"), 1), Ok(()));
    assert_eq!(registry.take(&id("download_1")), Some(1));
    assert_eq!(registry.register(id("download_1"), 2), Ok(()));
    assert_eq!(registry.take(&id("download_1")), Some(2));
}

#[test]
fn take_of_an_unknown_id_changes_nothing() {
    let mut registry: JobRegistry<u32> = JobRegistry::new();
    assert_eq!(registry.register(id("known"), 5), Ok(()));
    assert_eq!(registry.take(&id("unknown")), None);
    assert!(registry.contains(&id("known")));
    assert_eq!(registry.take(&id("known")), Some(5));
}

#[test]
fn ids_are_told_apart_by_every_character() {
    let mut registry: JobRegistry<u32> = JobRegistry::new();
    assert_eq!(registry.register(id("download_10"), 10), Ok(()));
    assert_eq!(registry.register(id("download_1"), 1), Ok(()));
    assert_eq!(registry.register(id(""), 0), Ok(()));
    assert_eq!(registry.take(&id("download_1")), Some(1));
    assert_eq!(registry.take(&id("")), Some(0));
    assert_eq!(registry.take(&id("download_10")), Some(10));
}

#[test]
fn handle_mut_changes_a_handle_in_place() {
    let mut registry: JobRegistry<u32> = JobRegistry::new();
    assert_eq!(registry.register(id("a"), 1), Ok(()));
    assert_eq!(registry.register(id("b"), 2), Ok(()));
    match registry.handle_mut(&id("b")) {
        Some(handle) => {
            assert_eq!(*handle, 2);
            *handle = 20;
        }
        None => panic!("b is live"),
    }
    assert!(registry.handle_mut(&id("c")).is_none());
    assert_eq!(registry.take(&id("b")), Some(20));
    assert_eq!(registry.take(&id("a")), Some(1));
}

#[test]
fn handles_need_not_be_copyable() {
    let mut registry: JobRegistry<Vec<String>> = JobRegistry::new();
    assert!(registry.register(id("x"), vec![id("one"), id("two")]).is_ok());
    let back = registry.register(id("x"), vec![id("three")]);
    assert_eq!(back, Err(vec![id("three")]));
    assert_eq!(registry.take(&id("x")), Some(vec![id("one"), id("two")]));
}

#[test]
fn len_counts_the_live_jobs() {
    let mut registry: JobRegistry<u32> = JobRegistry::new();
    assert_eq!(registry.len(), 0);
    assert_eq!(registry.register(id("a"), 1), Ok(()));
    assert_eq!(registry.register(id("b"), 2), Ok(()));
    assert_eq!(registry.len(), 2);
    assert_eq!(registry.register(id("a"), 3), Err(3));
    assert_eq!(registry.len(), 2);
    assert_eq!(registry.take(&id("a")), Some(1));
    assert_eq!(registry.len(), 1);
    assert_eq!(registry.take(&id("a")), None);
    assert_eq!(registry.len(), 1);
}
