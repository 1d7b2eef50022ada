use simple_http_server::http::response::HttpStatusCode;
use simple_http_server::website::loaded_file::{LoadedFile, ReloadError, ReloadResult};
use simple_http_server::website::paths::{climbs_out, normalize, resource_path};
use simple_http_server::website::static_website::{FileProbe, Lookup, ResourceOutcome, StaticWebsite};

fn read_path(l: Lookup) -> String {
    match l {
        Lookup::Read(p) => p,
        Lookup::Done(_) => panic!("expected a read"),
    }
}

fn done(l: Lookup) -> ResourceOutcome {
    match l {
        Lookup::Done(o) => o,
        Lookup::Read(p) => panic!("unexpected read of {}", p),
    }
}

fn hit(o: ResourceOutcome) -> Vec<u8> {
    match o {
        ResourceOutcome::Hit(b) => b,
        _ => panic!("expected a hit"),
    }
}

#[test]
fn normalize_maps_root_and_strips_one_slash() {
    assert_eq!(normalize("/"), "index.html");
    assert_eq!(normalize("/a/b.html"), "a/b.html");
    assert_eq!(normalize("//x"), "/x");
    assert_eq!(normalize("plain"), "plain");
    assert_eq!(normalize(""), "");
}

#[test]
fn resource_path_joins_under_root() {
    assert_eq!(resource_path("public", "/"), Some("public/index.html".to_string()));
    assert_eq!(resource_path("public", "/a//b.html"), Some("public/a/b.html".to_string()));
    assert_eq!(resource_path("", "/a/b"), Some("a/b".to_string()));
    assert_eq!(resource_path("public", "/./x"), Some("public/./x".to_string()));
    assert_eq!(resource_path("public", "/.../x"), Some("public/.../x".to_string()));
}

#[test]
fn resource_path_rejects_traversal() {
    assert_eq!(resource_path("public", "/../etc/passwd"), None);
    assert_eq!(resource_path("public", "/a/../../x"), None);
    assert_eq!(resource_path("public", "/.."), None);
    assert!(climbs_out("a/.."));
    assert!(!climbs_out("a/..b"));
}

#[test]
fn try_reload_compares_modification_with_read_time() {
    let f = LoadedFile::from_read("p".to_string(), b"x".to_vec(), 100);
    assert_eq!(f.try_reload(Some(99)), ReloadResult::NotNeeded);
    assert_eq!(f.try_reload(Some(100)), ReloadResult::NotNeeded);
    assert_eq!(f.try_reload(Some(101)), ReloadResult::ReadNeeded);
    assert_eq!(
        f.try_reload(None),
        ReloadResult::ErrorDidntReload(ReloadError::MetadataUnavailable)
    );
}

#[test]
fn first_resolution_reads_and_caches() {
    let mut site = StaticWebsite::new("public".to_string());
    assert_eq!(site.public_directory(), "public");
    let path = read_path(site.lookup("/a.html", FileProbe::ModifiedAt(5)));
    assert_eq!(path, "public/a.html");
    assert_eq!(hit(site.finish_read("/a.html", Some(b"A".to_vec()), 10)), b"A".to_vec());
}

#[test]
fn unchanged_file_is_served_from_cache() {
    let mut site = StaticWebsite::new("public".to_string());
    read_path(site.lookup("/a.html", FileProbe::ModifiedAt(5)));
    site.finish_read("/a.html", Some(b"A".to_vec()), 10);
    assert_eq!(hit(done(site.lookup("/a.html", FileProbe::ModifiedAt(5)))), b"A".to_vec());
    assert_eq!(hit(done(site.lookup("/a.html", FileProbe::ModifiedAt(10)))), b"A".to_vec());
}

#[test]
fn modified_file_is_reloaded() {
    let mut site = StaticWebsite::new("public".to_string());
    read_path(site.lookup("/a.html", FileProbe::ModifiedAt(5)));
    site.finish_read("/a.html", Some(b"old".to_vec()), 10);
    let path = read_path(site.lookup("/a.html", FileProbe::ModifiedAt(11)));
    assert_eq!(path, "public/a.html");
    assert_eq!(hit(site.finish_read("/a.html", Some(b"new".to_vec()), 12)), b"new".to_vec());
    assert_eq!(hit(done(site.lookup("/a.html", FileProbe::ModifiedAt(11)))), b"new".to_vec());
}

#[test]
fn failed_reload_serves_stale_copy() {
    let mut site = StaticWebsite::new("public".to_string());
    read_path(site.lookup("/a.html", FileProbe::ModifiedAt(5)));
    site.finish_read("/a.html", Some(b"old".to_vec()), 10);
    read_path(site.lookup("/a.html", FileProbe::ModifiedAt(20)));
    match site.finish_read("/a.html", None, 21) {
        ResourceOutcome::StaleHit(b, e) => {
            assert_eq!(b, b"old".to_vec());
            assert_eq!(e, ReloadError::ReadFailed);
        }
        _ => panic!("expected a stale hit"),
    }
}

#[test]
fn unstamped_cached_file_is_served_stale() {
    let mut site = StaticWebsite::new("public".to_string());
    site.finish_read("/a.html", Some(b"old".to_vec()), 10);
    match done(site.lookup("/a.html", FileProbe::Unstamped)) {
        ResourceOutcome::StaleHit(b, e) => {
            assert_eq!(b, b"old".to_vec());
            assert_eq!(e, ReloadError::MetadataUnavailable);
        }
        _ => panic!("expected a stale hit"),
    }
}

#[test]
fn unstamped_uncached_file_is_read() {
    let site = StaticWebsite::new("public".to_string());
    assert_eq!(read_path(site.lookup("/a.html", FileProbe::Unstamped)), "public/a.html");
}

#[test]
fn failed_first_load_is_not_found() {
    let mut site = StaticWebsite::new("public".to_string());
    read_path(site.lookup("/a.html", FileProbe::ModifiedAt(5)));
    assert!(matches!(site.finish_read("/a.html", None, 10), ResourceOutcome::NotFound));
    assert!(matches!(read_path(site.lookup("/a.html", FileProbe::ModifiedAt(5))).as_str(), "public/a.html"));
}

#[test]
fn missing_file_is_not_found_even_when_cached() {
    let mut site = StaticWebsite::new("public".to_string());
    site.finish_read("/a.html", Some(b"A".to_vec()), 10);
    assert!(matches!(done(site.lookup("/a.html", FileProbe::Missing)), ResourceOutcome::NotFound));
    assert!(matches!(done(site.lookup("/b.html", FileProbe::Missing)), ResourceOutcome::NotFound));
}

#[test]
fn traversal_is_not_found_without_disk_access() {
    let mut site = StaticWebsite::new("public".to_string());
    assert_eq!(site.locate("/../secret"), None);
    assert!(matches!(done(site.lookup("/../secret", FileProbe::ModifiedAt(1))), ResourceOutcome::NotFound));
    assert!(matches!(site.finish_read("/../secret", Some(b"s".to_vec()), 2), ResourceOutcome::NotFound));
}

#[test]
fn root_and_index_share_one_entry() {
    let mut site = StaticWebsite::new("public".to_string());
    assert_eq!(site.locate("/"), Some("public/index.html".to_string()));
    site.finish_read("/", Some(b"hi".to_vec()), 10);
    assert_eq!(hit(done(site.lookup("/index.html", FileProbe::ModifiedAt(3)))), b"hi".to_vec());
}

#[test]
fn not_found_becomes_redirect() {
    let r = ResourceOutcome::NotFound.to_response();
    assert_eq!(r.status, HttpStatusCode::MovedPermanently);
    assert_eq!(r.header, "Location: /index.html");
    assert!(r.body.is_empty());
}

#[test]
fn hits_become_pages() {
    let r = ResourceOutcome::Hit(b"abc".to_vec()).to_response();
    assert_eq!(r.status, HttpStatusCode::OK);
    assert_eq!(r.header, "Content-Length: 3");
    assert_eq!(r.body, b"abc".to_vec());
    let s = ResourceOutcome::StaleHit(b"ab".to_vec(), ReloadError::ReadFailed).to_response();
    assert_eq!(s.header, "Content-Length: 2");
    assert_eq!(s.body, b"ab".to_vec());
}
