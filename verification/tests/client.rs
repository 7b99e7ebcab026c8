use curseforge_pack_downloader::client::{found_packs, Body, Client, Request, DEFAULT_TIMEOUT_SECS};
use curseforge_pack_downloader::models::{LatestFile, PackProject};

fn pack(id: u64, name: &str) -> PackProject {
    PackProject { id, name: name.to_string(), ..Default::default() }
}

fn ids(packs: &[PackProject]) -> Vec<u64> {
    packs.iter().map(|p| p.id).collect()
}

#[test]
fn new_client_times_out_after_sixty_seconds() {
    assert_eq!(DEFAULT_TIMEOUT_SECS, 60);
    assert_eq!(Client::new().timeout_secs, 60);
}

#[test]
fn client_with_timeout_keeps_it() {
    assert_eq!(Client::with_timeout(5).timeout_secs, 5);
    assert_eq!(Client::with_timeout(0).timeout_secs, 0);
}

#[test]
fn search_request_reads_json() {
    let request = Client::with_timeout(30).search_packs("example-pack", 5);
    assert_eq!(
        request,
        Request {
            url: "https://addons-ecs.forgesvc.net/api/v2/addon/search?gameId=432&sectionId=4471&pageSize=5&searchFilter=example-pack".to_string(),
            body: Body::Json,
            timeout_secs: 30,
        }
    );
}

#[test]
fn pack_request_reads_json() {
    let request = Client::new().get_pack_data(42);
    assert_eq!(request.url, "https://addons-ecs.forgesvc.net/api/v2/addon/42");
    assert_eq!(request.body, Body::Json);
    assert_eq!(request.timeout_secs, 60);
}

#[test]
fn file_request_reads_json() {
    let request = Client::new().get_file_data(42, 7);
    assert_eq!(request.url, "https://addons-ecs.forgesvc.net/api/v2/addon/42/file/7");
    assert_eq!(request.body, Body::Json);
}

#[test]
fn download_url_request_reads_text() {
    let request = Client::new().get_download_url(42, 7);
    assert_eq!(request.url, "https://addons-ecs.forgesvc.net/api/v2/addon/42/file/7/download-url");
    assert_eq!(request.body, Body::Text);
}

#[test]
fn server_pack_request_uses_the_server_pack_id() {
    let file = LatestFile { id: 7, server_pack_file_id: Some(9), ..Default::default() };
    let request = Client::with_timeout(3).get_server_pack_url(42, &file);
    assert_eq!(
        request,
        Some(Request {
            url: "https://addons-ecs.forgesvc.net/api/v2/addon/42/file/9/download-url".to_string(),
            body: Body::Text,
            timeout_secs: 3,
        })
    );
}

#[test]
fn no_server_pack_request_without_server_pack() {
    let file = LatestFile { id: 7, server_pack_file_id: None, ..Default::default() };
    assert_eq!(Client::new().get_server_pack_url(42, &file), None);
}

#[test]
fn server_pack_download_reads_bytes() {
    let request = Client::with_timeout(9).download_server_pack("https://example.org/a/b.zip");
    assert_eq!(
        request,
        Request { url: "https://example.org/a/b.zip".to_string(), body: Body::Bytes, timeout_secs: 9 }
    );
}

#[test]
fn found_packs_keeps_a_short_list_whole() {
    let found = found_packs(vec![pack(3, "c"), pack(1, "a"), pack(2, "b")], 5);
    assert_eq!(ids(&found), vec![3, 1, 2]);
}

#[test]
fn found_packs_keeps_a_list_of_just_the_size() {
    let found = found_packs(vec![pack(3, "c"), pack(1, "a")], 2);
    assert_eq!(ids(&found), vec![3, 1]);
}

#[test]
fn found_packs_cuts_a_long_list_at_the_page_size() {
    let found = found_packs(vec![pack(3, "c"), pack(1, "a"), pack(2, "b"), pack(9, "z")], 2);
    assert_eq!(ids(&found), vec![3, 1]);
    assert_eq!(found[0], pack(3, "c"));
}

#[test]
fn found_packs_of_nothing_is_nothing() {
    assert!(found_packs(Vec::new(), 5).is_empty());
    assert!(found_packs(Vec::new(), 0).is_empty());
}

#[test]
fn found_packs_with_page_size_zero_is_nothing() {
    assert!(found_packs(vec![pack(3, "c")], 0).is_empty());
}

#[test]
fn found_packs_never_exceeds_the_page_size() {
    for size in 0..6u64 {
        for count in 0..6u64 {
            let packs: Vec<PackProject> = (0..count).map(|i| pack(i, "p")).collect();
            let found = found_packs(packs, size);
            assert!(found.len() as u64 <= size);
            assert_eq!(found.len() as u64, count.min(size));
            assert_eq!(ids(&found), (0..count.min(size)).collect::<Vec<u64>>());
        }
    }
}
