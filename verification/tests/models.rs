use curseforge_pack_downloader::models::{
    Attachment, Author, Category, CategorySection, GameVersionLatestFile, LatestFile, Module,
    PackFileData, PackFileModule, PackProject, SortableGameVersion,
};
use serde_json::{Number, Value};

fn json_object() -> Value {
    let mut inner = serde_json::Map::new();
    inner.insert("addonId".to_string(), Value::Number(Number::from(238222u64)));
    inner.insert("type".to_string(), Value::Number(Number::from(3u64)));
    Value::Object(inner)
}

#[test]
fn default_records_are_empty() {
    let project = PackProject::default();
    assert_eq!(project.id, 0);
    assert_eq!(project.name, "");
    assert!(project.latest_files.is_empty());
    assert_eq!(project.download_count_bits, 0);
    let file = LatestFile::default();
    assert_eq!(file.server_pack_file_id, None);
    assert_eq!(file.install_metadata, Value::Null);
    assert!(file.dependencies.is_empty());
    assert_eq!(PackFileData::default().server_pack_file_id, None);
    assert_eq!(CategorySection::default().extra_include_pattern, Value::Null);
}

#[test]
fn clone_keeps_json_values() {
    let file = LatestFile {
        id: 5,
        dependencies: vec![json_object(), Value::Bool(true)],
        install_metadata: Value::String("meta".to_string()),
        changelog: Value::Array(vec![Value::Null, json_object()]),
        server_pack_file_id: Some(6),
        ..Default::default()
    };
    let copy = file.clone();
    assert_eq!(copy, file);
    assert_eq!(copy.dependencies[0], json_object());
    assert_eq!(copy.changelog, Value::Array(vec![Value::Null, json_object()]));
    assert_ne!(copy.install_metadata, Value::Null);
}

#[test]
fn clone_keeps_a_whole_project() {
    let project = PackProject {
        id: 1,
        name: "Pack".to_string(),
        authors: vec![Author { name: "a".to_string(), project_title_id: Some(2), ..Default::default() }],
        attachments: vec![Attachment { id: 3, is_default: true, ..Default::default() }],
        download_count_bits: 1234567.5f64.to_bits(),
        popularity_score_bits: 0.25f64.to_bits(),
        latest_files: vec![LatestFile {
            modules: vec![Module { foldername: "mods".to_string(), fingerprint: 9, type_field: 3 }],
            sortable_game_version: vec![SortableGameVersion {
                game_version: "1.16.5".to_string(),
                ..Default::default()
            }],
            game_version: vec!["1.16.5".to_string()],
            ..Default::default()
        }],
        categories: vec![Category { category_id: 4, ..Default::default() }],
        category_section: CategorySection {
            extra_include_pattern: json_object(),
            ..Default::default()
        },
        game_version_latest_files: vec![GameVersionLatestFile {
            project_file_id: 8,
            ..Default::default()
        }],
        ..Default::default()
    };
    let copy = project.clone();
    assert_eq!(copy, project);
    assert_eq!(f64::from_bits(copy.download_count_bits), 1234567.5);
    assert_eq!(f64::from_bits(copy.popularity_score_bits), 0.25);
    assert_eq!(copy.category_section.extra_include_pattern, json_object());
}

#[test]
fn records_differ_when_a_field_differs() {
    let a = PackFileData { id: 1, install_metadata: Value::Bool(false), ..Default::default() };
    let b = PackFileData { id: 1, install_metadata: Value::Null, ..Default::default() };
    assert_ne!(a, b);
    let m = PackFileModule { foldername: "x".to_string(), fingerprint: 1 };
    assert_eq!(m.clone(), m);
    assert_ne!(m, PackFileModule { foldername: "x".to_string(), fingerprint: 2 });
}
