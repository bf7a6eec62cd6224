use mineserver::archives::{common_root, strip_root, valid_world_name};
use mineserver::backups::{
    backup_file_name, find_backup, record_backup, remove_backup, retain_present, BackupInfo,
};
use mineserver::files::{copy_name, deletion_allowed, name_le, sort_listing, FileEntry};
use mineserver::properties::{join_text_lines, merge_properties, parse_properties, parse_property};
use mineserver::java::java_install;
use mineserver::plugins::{classify_plugin, toggled_plugin_name, trim_end_matches};
use mineserver::table::Table;
use mineserver::worlds::{
    dimension_folder, level_name, paper_dimension_names, resolve_world_path, world_group,
    world_settings, WorldCandidates, WorldDirFacts, WorldSizes,
};

fn backup(id: &str) -> BackupInfo {
    BackupInfo {
        id: id.to_string(),
        server_name: "Alpha".to_string(),
        server_path: "/srv/servers/alpha".to_string(),
        created_at: "2024-01-01T00:00:00+00:00".to_string(),
        size_bytes: 10,
        backup_type: "auto".to_string(),
        file_path: format!("/b/{}.zip", id),
    }
}

fn entry(name: &str, is_dir: bool) -> FileEntry {
    FileEntry { name: name.to_string(), size: 1, is_dir }
}

#[test]
fn table_keeps_one_value_per_key() {
    let mut t: Table<u32> = Table::new();
    t.insert("a".to_string(), 1);
    t.insert("b".to_string(), 2);
    t.insert("a".to_string(), 3);
    assert_eq!(t.get(&"a".to_string()), Some(&3));
    assert_eq!(t.keys().len(), 2);
    assert_eq!(t.remove(&"a".to_string()), Some(3));
    assert_eq!(t.remove(&"a".to_string()), None);
    assert!(!t.contains(&"a".to_string()));
    assert!(t.contains(&"b".to_string()));
}

#[test]
fn plugin_files_are_classified() {
    let p = classify_plugin("EssentialsX.jar".to_string(), 42).unwrap();
    assert_eq!(p.name, "EssentialsX");
    assert!(p.enabled);
    assert_eq!(p.size, 42);
    let d = classify_plugin("WorldEdit.jar.disabled".to_string(), 7).unwrap();
    assert_eq!(d.name, "WorldEdit");
    assert!(!d.enabled);
    assert_eq!(d.filename, "WorldEdit.jar.disabled");
    assert!(classify_plugin("readme.txt".to_string(), 1).is_none());
    assert_eq!(trim_end_matches("a.jar.jar", ".jar"), "a");
}

#[test]
fn plugin_toggle_names() {
    assert_eq!(toggled_plugin_name("a.jar"), "a.jar.disabled");
    assert_eq!(toggled_plugin_name("a.jar.disabled"), "a.jar");
}

#[test]
fn backup_names_are_safe() {
    assert_eq!(
        backup_file_name("My Server/1\\x", "20240101_120000"),
        "My_Server_1_x_20240101_120000.zip"
    );
}

#[test]
fn backup_index_operations() {
    let mut list = vec![backup("a"), backup("b")];
    record_backup(&mut list, backup("c"));
    assert_eq!(list[0].id, "c");
    assert_eq!(find_backup(&list, &"b".to_string()), Some(2));
    assert_eq!(find_backup(&list, &"z".to_string()), None);
    let kept = retain_present(&list, &vec![true, false, true]);
    assert_eq!(kept.iter().map(|b| b.id.as_str()).collect::<Vec<_>>(), vec!["c", "b"]);
    let gone = remove_backup(&mut list, &"a".to_string()).unwrap();
    assert_eq!(gone.id, "a");
    assert_eq!(list.len(), 2);
    assert!(remove_backup(&mut list, &"a".to_string()).is_none());
}

#[test]
fn level_name_is_read_from_properties() {
    let props = "#Minecraft server properties\nmotd=hi\n  level-name= survival \nlevel-name=other\n";
    assert_eq!(level_name(&Some(props.to_string())), "survival");
    assert_eq!(level_name(&Some("motd=x".to_string())), "world");
    assert_eq!(level_name(&None), "world");
}

#[test]
fn world_path_resolution() {
    let c = WorldCandidates {
        bedrock: "/srv/s/worlds/world".to_string(),
        java: "/srv/s/world".to_string(),
        worlds_dir: "/srv/s/worlds".to_string(),
    };
    let f = |b, j, w| WorldDirFacts { bedrock_is_dir: b, java_is_dir: j, worlds_is_dir: w };
    assert_eq!(resolve_world_path(&c, &f(true, true, true)), "/srv/s/worlds/world");
    assert_eq!(resolve_world_path(&c, &f(false, true, true)), "/srv/s/world");
    assert_eq!(resolve_world_path(&c, &f(false, false, true)), "/srv/s/worlds/world");
    assert_eq!(resolve_world_path(&c, &f(false, false, false)), "/srv/s/world");
    let (n, e) = paper_dimension_names("world");
    assert_eq!(n, "world_nether");
    assert_eq!(e, "world_the_end");
}

#[test]
fn world_summary_totals() {
    let sizes = WorldSizes {
        overworld: Some(100),
        vanilla_nether: Some(10),
        vanilla_end: None,
        paper_nether: Some(20),
        paper_end: Some(5),
    };
    let g = world_group("world".to_string(), "/srv/s/world".to_string(), &sizes);
    assert!(g.exists);
    assert_eq!(g.total_size, 125);
    let ids: Vec<&str> = g.dimensions.iter().map(|d| d.id.as_str()).collect();
    assert_eq!(ids, vec!["overworld", "nether_vanilla", "nether", "end"]);
    assert_eq!(g.dimensions[1].name, "Nether (Vanilla)");
    let none = WorldSizes {
        overworld: None,
        vanilla_nether: Some(1),
        vanilla_end: Some(1),
        paper_nether: None,
        paper_end: None,
    };
    let h = world_group("w".to_string(), "p".to_string(), &none);
    assert!(!h.exists);
    assert!(h.dimensions.is_empty());
    assert_eq!(h.total_size, 0);
}

#[test]
fn java_version_line() {
    let out = "openjdk version \"17.0.2\" 2022-01-18\r\nOpenJDK Runtime Environment\n";
    let j = java_install("/usr/bin/java".to_string(), out, "Unknown", "64-bit".to_string());
    assert_eq!(j.version, "openjdk version 17.0.2 2022-01-18");
    assert_eq!(j.path, "/usr/bin/java");
    assert_eq!(j.arch, "64-bit");
    let k = java_install("java".to_string(), "", "System Default", "System Default".to_string());
    assert_eq!(k.version, "System Default");
}

#[test]
fn listing_puts_directories_first() {
    let sorted = sort_listing(vec![
        entry("b.txt", false),
        entry("world", true),
        entry("A.txt", false),
        entry("config", true),
        entry("a.txt", false),
    ]);
    let names: Vec<&str> = sorted.iter().map(|e| e.name.as_str()).collect();
    assert_eq!(names, vec!["config", "world", "A.txt", "a.txt", "b.txt"]);
    assert!(sort_listing(vec![]).is_empty());
    assert!(name_le(&"ab".to_string(), &"abc".to_string()));
    assert!(!name_le(&"b".to_string(), &"abc".to_string()));
}

#[test]
fn properties_are_parsed_by_key() {
    let text = "#comment\n\nmotd = A Server \nlevel-seed=\npvp=true\nbroken line\npvp=false\nkey=a=b\n";
    let t = parse_properties(text);
    assert_eq!(t.get(&"motd".to_string()).map(|s| s.as_str()), Some("A Server"));
    assert_eq!(t.get(&"level-seed".to_string()).map(|s| s.as_str()), Some(""));
    assert_eq!(t.get(&"pvp".to_string()).map(|s| s.as_str()), Some("false"));
    assert_eq!(t.get(&"key".to_string()).map(|s| s.as_str()), Some("a=b"));
    assert_eq!(t.keys().len(), 4);
    assert!(parse_property("  # x=y").is_none());
    assert!(parse_property("   ").is_none());
    assert_eq!(parse_property(" a = b "), Some(("a".to_string(), "b".to_string())));
}

#[test]
fn server_deletion_needs_servers_folder() {
    assert!(deletion_allowed("/home/u/Mineserver/Servers/alpha"));
    assert!(deletion_allowed("/home/u/servers/alpha"));
    assert!(!deletion_allowed("/home/u/alpha"));
}

#[test]
fn dimension_folders() {
    let paper = ("/s/w_nether".to_string(), "/s/w_the_end".to_string());
    assert_eq!(dimension_folder("overworld", "/s/w".to_string(), paper.clone()), Ok("/s/w".to_string()));
    assert_eq!(dimension_folder("nether", "/s/w".to_string(), paper.clone()), Ok("/s/w_nether".to_string()));
    assert_eq!(dimension_folder("end", "/s/w".to_string(), paper.clone()), Ok("/s/w_the_end".to_string()));
    assert_eq!(dimension_folder("moon", "/s/w".to_string(), paper), Err("Unknown dimension: moon".to_string()));
}

#[test]
fn properties_merge_rewrites_and_appends() {
    let text = "#header\nmotd=old\n  pvp = true\n\nbroken\nmotd=again";
    let updates = vec![
        ("motd".to_string(), "new".to_string()),
        ("max-players".to_string(), "8".to_string()),
        ("pvp".to_string(), "false".to_string()),
    ];
    assert_eq!(
        merge_properties(text, &updates),
        "#header\nmotd=new\npvp=false\n\nbroken\nmotd=new\nmax-players=8"
    );
    assert_eq!(merge_properties("", &updates), "motd=new\nmax-players=8\npvp=false");
    assert_eq!(merge_properties("a=1\n", &vec![]), "a=1");
    assert_eq!(join_text_lines(&vec!["a".to_string(), "".to_string(), "b".to_string()]), "a\n\nb");
}

#[test]
fn world_settings_cover_generation_keys() {
    let s = world_settings("123".to_string(), "flat".to_string(), true, false, "hard".to_string(), false, true, true);
    let pairs: Vec<(&str, &str)> = s.iter().map(|(k, v)| (k.as_str(), v.as_str())).collect();
    assert_eq!(
        pairs,
        vec![
            ("level-seed", "123"),
            ("level-type", "flat"),
            ("generate-structures", "true"),
            ("hardcore", "false"),
            ("difficulty", "hard"),
            ("spawn-animals", "false"),
            ("spawn-monsters", "true"),
            ("allow-nether", "true"),
        ]
    );
}

#[test]
fn copies_are_numbered() {
    assert_eq!(copy_name("server", &Some("properties".to_string()), 1), "server (copy 1).properties");
    assert_eq!(copy_name("run", &None, 12), "run (copy 12)");
}

#[test]
fn archive_roots_are_detected_and_stripped() {
    let names = vec!["w/".to_string(), "w/level.dat".to_string(), "w/region/r.0.0.mca".to_string()];
    assert_eq!(common_root(&names), Some("w/".to_string()));
    let mixed = vec!["w/level.dat".to_string(), "x/level.dat".to_string()];
    assert_eq!(common_root(&mixed), None);
    let flat = vec!["level.dat".to_string(), "w/a".to_string()];
    assert_eq!(common_root(&flat), None);
    assert_eq!(common_root(&vec![]), None);
    let root = Some("w/".to_string());
    assert_eq!(strip_root("w/region/r.0.0.mca", &root), "region/r.0.0.mca");
    assert_eq!(strip_root("w/", &root), "");
    assert_eq!(strip_root("other", &root), "other");
    assert_eq!(strip_root("w/a", &None), "w/a");
}

#[test]
fn world_names_are_checked() {
    assert!(valid_world_name("My World"));
    assert!(!valid_world_name("   "));
    assert!(!valid_world_name("../up"));
    assert!(!valid_world_name("a/b"));
    assert!(!valid_world_name("a\\b"));
}
