use kpm::{enumerate_module_files, find_kpm_file, has_module_extension, module_name, ModuleFile};

fn paths(list: &[&str]) -> Vec<String> {
    list.iter().map(|path| path.to_string()).collect()
}

#[test]
fn module_extension_is_exact() {
    assert!(has_module_extension("/data/adb/kpm/a.kpm"));
    assert!(has_module_extension("a.b.kpm"));
    assert!(!has_module_extension("/data/adb/kpm/a.KPM"));
    assert!(!has_module_extension("/data/adb/kpm/a.kpm.bak"));
    assert!(!has_module_extension("/data/adb/kpm/kpm"));
    assert!(!has_module_extension("/data/adb/kpm/.kpm"));
    assert!(!has_module_extension("/data/adb/a.kpm/readme"));
    assert!(!has_module_extension(""));
}

#[test]
fn module_name_is_the_file_stem() {
    assert_eq!(module_name("/data/adb/kpm/a.kpm"), Some("a".to_string()));
    assert_eq!(module_name("/data/adb/kpm/a.b.kpm"), Some("a.b".to_string()));
    assert_eq!(module_name("notes.txt"), Some("notes".to_string()));
    assert_eq!(module_name("/data/adb/kpm/.kpm"), Some(".kpm".to_string()));
    assert_eq!(module_name("/"), None);
    assert_eq!(module_name(""), None);
    assert_eq!(module_name("/data/adb/kpm/.."), None);
}

#[test]
fn find_returns_first_module_file_of_that_name() {
    let entries = paths(&["/m/a.txt", "/m/b.kpm", "/m/sub/a.kpm", "/m/a.kpm"]);
    assert_eq!(find_kpm_file("a", &entries), Some("/m/sub/a.kpm".to_string()));
    assert_eq!(find_kpm_file("b", &entries), Some("/m/b.kpm".to_string()));
}

#[test]
fn find_without_match_is_none() {
    let entries = paths(&["/m/a.txt", "/m/b.kpm", "/m/ab.kpm"]);
    assert_eq!(find_kpm_file("a", &entries), None);
    assert_eq!(find_kpm_file("b.kpm", &entries), None);
    assert_eq!(find_kpm_file("a", &Vec::new()), None);
}

#[test]
fn enumeration_keeps_module_files_in_order() {
    let entries = paths(&["/m/z.kpm", "/m/readme.md", "/m/.kpm", "/m/a.kpm", "/m/a.kpm.old"]);
    assert_eq!(
        enumerate_module_files(&entries),
        vec![
            ModuleFile { path: "/m/z.kpm".to_string(), name: "z".to_string() },
            ModuleFile { path: "/m/a.kpm".to_string(), name: "a".to_string() },
        ]
    );
    assert_eq!(enumerate_module_files(&Vec::new()), Vec::new());
}
