use std::cell::Cell;
use std::collections::HashMap;
use std::sync::Arc;

use crayon_res::arena::ArenaWrapper;
use crayon_res::capability::{ExternalResourceSystem, Filesystem, ResourceParser};
use crayon_res::error::ResourceError;
use crayon_res::key::{normalize, resource_key};
use crayon_res::system::{LoadStep, ResourceSystem, Task};

const TEXT: u64 = 1;
const OTHER: u64 = 2;
const SUFFIX: u64 = 10;

struct MemoryFs {
    files: HashMap<String, Vec<u8>>,
    reads: Cell<usize>,
}

impl MemoryFs {
    fn new(files: &[(&str, &str)]) -> Self {
        MemoryFs {
            files: files
                .iter()
                .map(|(p, b)| (p.to_string(), b.as_bytes().to_vec()))
                .collect(),
            reads: Cell::new(0),
        }
    }
}

impl Filesystem for MemoryFs {
    fn has_path(&self, path: &str) -> bool {
        self.files.contains_key(path)
    }

    fn load_into(&self, path: &str, buf: &mut Vec<u8>) -> Result<(), ResourceError> {
        self.reads.set(self.reads.get() + 1);
        match self.files.get(path) {
            Some(bytes) => {
                buf.extend_from_slice(bytes);
                Ok(())
            }
            None => Err(ResourceError::NotFound),
        }
    }
}

struct Upper {
    parses: Cell<usize>,
}

impl Upper {
    fn new() -> Self {
        Upper { parses: Cell::new(0) }
    }
}

impl ResourceParser<String> for Upper {
    fn parse(&self, _ty: u64, bytes: &[u8]) -> Result<String, ResourceError> {
        self.parses.set(self.parses.get() + 1);
        match std::str::from_utf8(bytes) {
            Ok(s) if !s.starts_with('!') => Ok(s.to_uppercase()),
            _ => Err(ResourceError::ParseFailure),
        }
    }
}

struct Suffixer {
    calls: usize,
    evictions: usize,
    tag: String,
}

impl ExternalResourceSystem<String> for Suffixer {
    type Options = String;

    fn load(&mut self, _path: &str, base: &String, options: String) -> Result<String, ResourceError> {
        self.calls += 1;
        Ok(format!("{}{}{}", base, options, self.tag))
    }

    fn unload_unused(&mut self) {
        self.evictions += 1;
    }
}

fn text_system() -> ResourceSystem<String, Suffixer> {
    let mut system = ResourceSystem::new();
    system.register(TEXT, 4);
    system
}

#[test]
fn uppercase_text_is_loaded_once_and_shared() {
    let fs = MemoryFs::new(&[("/a.txt", "hello")]);
    let parser = Upper::new();
    let mut system = text_system();

    let first = system.load(TEXT, "/a.txt", &fs, &parser).unwrap();
    assert_eq!(*first, "HELLO");
    assert_eq!(fs.reads.get(), 1);

    let second = system.load(TEXT, "/a.txt", &fs, &parser).unwrap();
    assert!(Arc::ptr_eq(&first, &second));
    assert_eq!(fs.reads.get(), 1);
    assert_eq!(parser.parses.get(), 1);

    let cached = system.cached(TEXT, "/a.txt").unwrap();
    assert!(Arc::ptr_eq(&first, &cached));
}

#[test]
fn unregistered_type_fails() {
    let fs = MemoryFs::new(&[("/a.txt", "hello")]);
    let parser = Upper::new();
    let mut system = text_system();
    assert_eq!(
        system.load(OTHER, "/a.txt", &fs, &parser).unwrap_err(),
        ResourceError::NotRegistered
    );
    assert_eq!(fs.reads.get(), 0);
}

#[test]
fn missing_file_is_not_cached_and_can_be_retried() {
    let parser = Upper::new();
    let mut system = text_system();
    let empty = MemoryFs::new(&[]);
    assert_eq!(
        system.load(TEXT, "/b.txt", &empty, &parser).unwrap_err(),
        ResourceError::NotFound
    );
    assert!(system.cached(TEXT, "/b.txt").is_none());

    let fs = MemoryFs::new(&[("/b.txt", "later")]);
    assert_eq!(*system.load(TEXT, "/b.txt", &fs, &parser).unwrap(), "LATER");
}

#[test]
fn parse_failure_is_reported_and_not_cached() {
    let fs = MemoryFs::new(&[("/bad.txt", "!oops")]);
    let parser = Upper::new();
    let mut system = text_system();
    assert_eq!(
        system.load(TEXT, "/bad.txt", &fs, &parser).unwrap_err(),
        ResourceError::ParseFailure
    );
    assert!(system.cached(TEXT, "/bad.txt").is_none());
}

#[test]
fn nested_load_of_path_in_flight_is_circular() {
    let fs = MemoryFs::new(&[("/a.txt", "hello")]);
    let parser = Upper::new();
    let mut system = text_system();

    let key = match system.begin_load(TEXT, "/a.txt") {
        LoadStep::Fetch(key) => key,
        _ => panic!("expected a fetch"),
    };
    assert_eq!(key, resource_key("/a.txt"));

    assert_eq!(
        system.load(TEXT, "/a.txt", &fs, &parser).unwrap_err(),
        ResourceError::CircularReferenceFound
    );
    assert_eq!(fs.reads.get(), 0);

    let outer = system.finish_load(TEXT, key, Ok("HELLO".to_string())).unwrap();
    assert_eq!(*outer, "HELLO");
    let again = system.load(TEXT, "/a.txt", &fs, &parser).unwrap();
    assert!(Arc::ptr_eq(&outer, &again));
}

#[test]
fn in_flight_key_is_released_after_failure() {
    let mut system = text_system();
    let key = match system.begin_load(TEXT, "/a.txt") {
        LoadStep::Fetch(key) => key,
        _ => panic!("expected a fetch"),
    };
    assert_eq!(
        system.finish_load(TEXT, key, Err(ResourceError::NotFound)).unwrap_err(),
        ResourceError::NotFound
    );
    assert!(matches!(system.begin_load(TEXT, "/a.txt"), LoadStep::Fetch(_)));
}

#[test]
fn registering_twice_keeps_cached_entries() {
    let fs = MemoryFs::new(&[("/a.txt", "hello")]);
    let parser = Upper::new();
    let mut system = text_system();
    let first = system.load(TEXT, "/a.txt", &fs, &parser).unwrap();
    system.register(TEXT, 4);
    system.register(TEXT, 100);
    let again = system.cached(TEXT, "/a.txt").unwrap();
    assert!(Arc::ptr_eq(&first, &again));
}

#[test]
fn eviction_after_two_loads_sees_both() {
    let fs = MemoryFs::new(&[("/slow.txt", "slow"), ("/fast.txt", "fast")]);
    let parser = Upper::new();
    let mut system = text_system();
    let tasks = vec![
        Task::Load { ty: TEXT, path: "/slow.txt".to_string() },
        Task::Load { ty: TEXT, path: "/fast.txt".to_string() },
    ];
    let mut held = Vec::new();
    for task in tasks {
        held.push(system.run_task(task, &fs, &parser).unwrap().unwrap());
    }
    assert!(system.cached(TEXT, "/slow.txt").is_some());
    assert!(system.cached(TEXT, "/fast.txt").is_some());

    assert!(system.run_task(Task::UnloadUnused, &fs, &parser).is_none());
    assert!(system.cached(TEXT, "/slow.txt").is_some());
    assert!(system.cached(TEXT, "/fast.txt").is_some());

    drop(held);
    system.advance().unwrap();
    assert!(system.cached(TEXT, "/slow.txt").is_none());
    assert!(system.cached(TEXT, "/fast.txt").is_none());
}

#[test]
fn extern_stage_builds_from_the_base() {
    let fs = MemoryFs::new(&[("/a.txt", "hello")]);
    let parser = Upper::new();
    let mut system = text_system();
    system.register_extern_system(SUFFIX, Suffixer { calls: 0, evictions: 0, tag: String::new() });
    let item = system
        .load_extern(TEXT, SUFFIX, "/a.txt", "!".to_string(), &fs, &parser)
        .unwrap();
    assert_eq!(*item, "HELLO!");
}

#[test]
fn extern_stage_is_skipped_when_base_fails() {
    let fs = MemoryFs::new(&[("/bad.txt", "!oops")]);
    let parser = Upper::new();
    let mut system = text_system();
    system.register_extern_system(SUFFIX, Suffixer { calls: 0, evictions: 0, tag: String::new() });
    assert_eq!(
        system
            .load_extern(TEXT, SUFFIX, "/bad.txt", "?".to_string(), &fs, &parser)
            .unwrap_err(),
        ResourceError::ParseFailure
    );
    assert_eq!(
        system
            .extern_stage(SUFFIX, "/bad.txt", Err(ResourceError::NotFound), "?".to_string())
            .unwrap_err(),
        ResourceError::NotFound
    );
}

#[test]
fn unregistered_extern_system_fails() {
    let fs = MemoryFs::new(&[("/a.txt", "hello")]);
    let parser = Upper::new();
    let mut system = text_system();
    assert_eq!(
        system
            .load_extern(TEXT, SUFFIX, "/a.txt", "!".to_string(), &fs, &parser)
            .unwrap_err(),
        ResourceError::NotRegistered
    );
}

#[test]
fn loads_after_stop_are_unavailable() {
    let fs = MemoryFs::new(&[("/a.txt", "hello")]);
    let parser = Upper::new();
    let mut system = text_system();
    let before = system
        .run_task(Task::Load { ty: TEXT, path: "/a.txt".to_string() }, &fs, &parser)
        .unwrap();
    assert_eq!(*before.unwrap(), "HELLO");
    assert!(system.run_task(Task::Stop, &fs, &parser).is_none());
    let after = system
        .run_task(Task::Load { ty: TEXT, path: "/a.txt".to_string() }, &fs, &parser)
        .unwrap();
    assert_eq!(after.unwrap_err(), ResourceError::SystemUnavailable);
    let chained = system
        .run_task(
            Task::ExternLoad { ty: TEXT, system: SUFFIX, path: "/a.txt".to_string(), options: "!".to_string() },
            &fs,
            &parser,
        )
        .unwrap();
    assert_eq!(chained.unwrap_err(), ResourceError::SystemUnavailable);
}

#[test]
fn equal_paths_give_equal_keys() {
    assert_eq!(resource_key("/a.txt"), resource_key(&String::from("/a.txt")));
    assert_ne!(resource_key("/a.txt"), resource_key("/b.txt"));
}

#[test]
fn paths_are_keyed_in_normal_form() {
    assert_eq!(normalize(b"/a//b///c/"), b"/a/b/c".to_vec());
    assert_eq!(normalize(b"/"), b"/".to_vec());
    assert_eq!(normalize(b"//"), b"/".to_vec());
    assert_eq!(normalize(b""), Vec::<u8>::new());
    assert_eq!(resource_key("/a//b/"), resource_key("/a/b"));
    assert_ne!(resource_key("/a/b"), resource_key("/ab"));
}

#[test]
fn equivalent_path_hits_the_cache() {
    let fs = MemoryFs::new(&[("/dir/a.txt", "hello")]);
    let parser = Upper::new();
    let mut system = text_system();
    let first = system.load(TEXT, "/dir/a.txt", &fs, &parser).unwrap();
    let second = system.load(TEXT, "/dir//a.txt", &fs, &parser).unwrap();
    assert!(Arc::ptr_eq(&first, &second));
    assert_eq!(fs.reads.get(), 1);
}

#[test]
fn current_dir_components_are_dropped() {
    assert_eq!(normalize(b"/a/./b"), b"/a/b".to_vec());
    assert_eq!(normalize(b"/a/."), b"/a".to_vec());
    assert_eq!(normalize(b"/./"), b"/".to_vec());
    assert_eq!(normalize(b"./a"), b"./a".to_vec());
    assert_eq!(normalize(b"/a/.b"), b"/a/.b".to_vec());
    assert_eq!(normalize(b"/a/../b"), b"/a/../b".to_vec());
    assert_eq!(resource_key("/a/./b"), resource_key("/a/b"));
}

#[test]
fn stopped_worker_ignores_eviction_and_keeps_cache() {
    let fs = MemoryFs::new(&[("/a.txt", "hello")]);
    let parser = Upper::new();
    let mut system = text_system();
    drop(system.load(TEXT, "/a.txt", &fs, &parser).unwrap());
    assert!(system.run_task(Task::Stop, &fs, &parser).is_none());
    assert!(system.run_task(Task::UnloadUnused, &fs, &parser).is_none());
    assert!(system.cached(TEXT, "/a.txt").is_some());
}

#[test]
fn registering_an_extern_system_again_keeps_the_first() {
    let fs = MemoryFs::new(&[("/a.txt", "hello")]);
    let parser = Upper::new();
    let mut system = text_system();
    system.register_extern_system(SUFFIX, Suffixer { calls: 0, evictions: 0, tag: String::new() });
    system.register_extern_system(SUFFIX, Suffixer { calls: 0, evictions: 0, tag: "X".to_string() });
    let item = system
        .load_extern(TEXT, SUFFIX, "/a.txt", "!".to_string(), &fs, &parser)
        .unwrap();
    assert_eq!(*item, "HELLO!");
}

#[test]
fn remove_unused_removes_exactly_the_listed_keys() {
    let mut arena: ArenaWrapper<u32> = ArenaWrapper::new(4);
    arena.insert(1, Arc::new(10));
    arena.insert(2, Arc::new(20));
    arena.insert(3, Arc::new(30));
    arena.remove_unused(&vec![2, 9]);
    assert_eq!(arena.get(1).map(|v| *v), Some(10));
    assert!(arena.get(2).is_none());
    assert_eq!(arena.get(3).map(|v| *v), Some(30));
}

#[test]
fn unused_keys_are_those_nobody_holds() {
    let mut arena: ArenaWrapper<u32> = ArenaWrapper::new(4);
    let held = Arc::new(10);
    arena.insert(1, Arc::clone(&held));
    arena.insert(2, Arc::new(20));
    assert_eq!(arena.unused_keys(), vec![2]);
    arena.unload_unused();
    assert!(arena.get(2).is_none());
    assert_eq!(arena.get(1).map(|v| *v), Some(10));
}
