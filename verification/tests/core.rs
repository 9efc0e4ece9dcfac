use sampicore::config::{api_key, api_secret_key, list, local_path, ConfigError, SampConf};
use sampicore::digest::{hash_bytes, object_name_of};
use sampicore::img::{crop, rgba_from_frame, Capture};
use sampicore::region::{Point, Region, Selector};
use sampicore::storage::{
    Disk, Local, ObjectStore, RelayPost, S3Store, SampicServer, Storage, StorageError, to_dec,
};
use std::cell::RefCell;
use std::collections::HashMap;
use std::rc::Rc;

type Files = Rc<RefCell<HashMap<String, Vec<u8>>>>;

/// A disk that stores the raw buffer under the path, in memory.
struct MemDisk {
    files: Files,
}

impl Disk for MemDisk {
    fn write_image(
        &self,
        path: &String,
        buffer: &[u8],
        _w: u32,
        _h: u32,
    ) -> Result<(), StorageError> {
        self.files.borrow_mut().insert(path.clone(), buffer.to_vec());
        Ok(())
    }

    fn read_file(&self, path: &String, to: &mut Vec<u8>) -> Result<(), StorageError> {
        match self.files.borrow().get(path) {
            Some(bytes) => {
                to.extend_from_slice(bytes);
                Ok(())
            }
            None => Err(StorageError::IOError),
        }
    }
}

/// An object store that remembers every put, in memory.
struct MemStore {
    objects: Files,
}

impl ObjectStore for MemStore {
    fn put(&self, _bucket: &String, key: &String, body: &[u8]) -> Result<(), StorageError> {
        self.objects.borrow_mut().insert(key.clone(), body.to_vec());
        Ok(())
    }

    fn get(&self, _bucket: &String, key: &String, to: &mut Vec<u8>) -> Result<(), StorageError> {
        match self.objects.borrow().get(key) {
            Some(bytes) => {
                to.extend_from_slice(bytes);
                Ok(())
            }
            None => Err(StorageError::ReadError),
        }
    }
}

/// An object store whose upload step always fails.
struct FailStore;

impl ObjectStore for FailStore {
    fn put(&self, _bucket: &String, _key: &String, _body: &[u8]) -> Result<(), StorageError> {
        Err(StorageError::UnknownError)
    }

    fn get(&self, _bucket: &String, _key: &String, _to: &mut Vec<u8>) -> Result<(), StorageError> {
        Err(StorageError::ReadError)
    }
}

fn new_files() -> Files {
    Rc::new(RefCell::new(HashMap::new()))
}

#[test]
fn it_works() {
    assert_eq!(2 + 2, 4);
}

#[test]
fn hash_is_deterministic_across_calls_and_backends() {
    let buf: Vec<u8> = vec![104, 101, 108, 108, 111];
    let d1 = hash_bytes(&buf);
    let d2 = hash_bytes(&buf);
    assert_eq!(d1, d2);

    let conf = SampConf::default();
    let local = Local::new(String::from("/tmp/"), MemDisk { files: new_files() });
    let staging = Local::new(String::from("/tmp/"), MemDisk { files: new_files() });
    let s3 = S3Store::new(&conf, staging, MemStore { objects: new_files() });
    assert_eq!(local.hash(&buf), d1);
    assert_eq!(s3.hash(&buf), d1);

    let relay_staging = Local::new(String::from("/tmp/"), MemDisk { files: new_files() });
    let relay_s3 = S3Store::new(&conf, relay_staging, MemStore { objects: new_files() });
    let relay = SampicServer::new(&conf, relay_s3, OkRelay { calls: Rc::new(RefCell::new(vec![])) });
    assert_eq!(relay.hash(&buf), d1);
}

#[test]
fn hash_known_values() {
    let empty: Vec<u8> = vec![];
    assert_eq!(hash_bytes(&empty), "cbf29ce484222325");
    let abc: Vec<u8> = vec![97, 98, 99];
    assert_eq!(hash_bytes(&abc), "e71fa2190541574b");
    assert_eq!(object_name_of(&abc, "png"), "e71fa2190541574b.png");
}

#[test]
fn decimal_rendering() {
    assert_eq!(to_dec(0), "0");
    assert_eq!(to_dec(7), "7");
    assert_eq!(to_dec(1080), "1080");
    assert_eq!(to_dec(4294967295), "4294967295");
}

#[test]
fn idempotent_save_same_name_no_error() {
    let conf = SampConf::default();
    let local = Local::new(String::from("/tmp/"), MemDisk { files: new_files() });
    let buf: Vec<u8> = vec![9, 9, 9, 9];
    let first = local.save(&buf, String::from("png"), 1, 1).unwrap();
    let second = local.save(&buf, String::from("png"), 1, 1).unwrap();
    assert_eq!(first, second);

    let objects = new_files();
    let staging = Local::new(String::from("/tmp/"), MemDisk { files: new_files() });
    let s3 = S3Store::new(&conf, staging, MemStore { objects: objects.clone() });
    let l1 = s3.save(&buf, String::from("png"), 1, 1).unwrap();
    let l2 = s3.save(&buf, String::from("png"), 1, 1).unwrap();
    assert_eq!(l1, l2);
    assert_eq!(objects.borrow().len(), 1);
}

#[test]
fn link_before_save_is_pure() {
    let conf = SampConf::default();
    let local = Local::new(String::from("/tmp/"), MemDisk { files: new_files() });
    let name = String::from("deadbeef.png");
    assert_eq!(local.link(&name).unwrap(), "/tmp/deadbeef.png");

    let staging = Local::new(String::from("/tmp/"), MemDisk { files: new_files() });
    let s3 = S3Store::new(&conf, staging, FailStore);
    assert_eq!(
        s3.link(&name).unwrap(),
        "https://sampic-store.s3.fr-par.scw.cloud/deadbeef.png"
    );
}

#[test]
fn local_link_separator() {
    let no_slash = Local::new(String::from("/var/shots"), MemDisk { files: new_files() });
    assert_eq!(no_slash.link(&String::from("a.png")).unwrap(), "/var/shots/a.png");
    let empty = Local::new(String::new(), MemDisk { files: new_files() });
    assert_eq!(empty.link(&String::from("a.png")).unwrap(), "a.png");
}

#[test]
fn region_monotonic_expansion() {
    let mut sel = Selector::new();
    sel.pointer_down(Point { x: 10, y: 10 });
    sel.pointer_move(Point { x: 20, y: 20 });
    sel.pointer_move(Point { x: 15, y: 15 });
    sel.pointer_move(Point { x: 30, y: 5 });
    assert_eq!(sel.far, Point { x: 30, y: 20 });
    let region = sel.pointer_up();
    assert_eq!(region, Region { x: 10, y: 10, width: 20, height: 10 });
}

#[test]
fn region_zero_area_fallback() {
    let sel = Selector::new();
    let region = sel.pointer_up();
    assert_eq!(region, Region { x: 0, y: 0, width: 0, height: 0 });
    assert!(region.is_degenerate());
}

#[test]
fn region_moves_before_down_are_ignored() {
    let mut sel = Selector::new();
    sel.pointer_move(Point { x: 500, y: 500 });
    sel.pointer_down(Point { x: 10, y: 10 });
    sel.pointer_move(Point { x: 12, y: 14 });
    let region = sel.pointer_up();
    assert_eq!(region, Region { x: 10, y: 10, width: 2, height: 4 });
}

#[test]
fn partial_failure_leaves_local_copy() {
    let files = new_files();
    let conf = SampConf::default();
    let staging = Local::new(String::from("/tmp/"), MemDisk { files: files.clone() });
    let s3 = S3Store::new(&conf, staging, FailStore);
    let buf: Vec<u8> = vec![1, 2, 3, 4];
    let result = s3.save(&buf, String::from("png"), 1, 1);
    assert_eq!(result.unwrap_err(), StorageError::UnknownError);

    let name = format!("{}.png", s3.hash(&buf));
    let mut recovered: Vec<u8> = Vec::new();
    s3.local.read_to(&name, &mut recovered).unwrap();
    assert_eq!(recovered, buf);
}

/// A relay that records each posted URL and body.
struct OkRelay {
    calls: Rc<RefCell<Vec<(String, Vec<u8>)>>>,
}

impl RelayPost for OkRelay {
    fn post(&self, url: &String, body: &[u8]) -> Result<(), StorageError> {
        self.calls.borrow_mut().push((url.clone(), body.to_vec()));
        Ok(())
    }
}

/// A relay that refuses every post.
struct FailRelay;

impl RelayPost for FailRelay {
    fn post(&self, _url: &String, _body: &[u8]) -> Result<(), StorageError> {
        Err(StorageError::ReadError)
    }
}

#[test]
fn relay_posts_to_upload_url_and_links_like_s3() {
    let conf = SampConf::default();
    let staging = Local::new(String::from("/tmp/"), MemDisk { files: new_files() });
    let s3 = S3Store::new(&conf, staging, MemStore { objects: new_files() });
    let calls = Rc::new(RefCell::new(vec![]));
    let relay = SampicServer::new(&conf, s3, OkRelay { calls: calls.clone() });

    let buf: Vec<u8> = vec![97, 98, 99];
    let link = relay.save(&buf, String::from("png"), 2, 1).unwrap();
    assert_eq!(link, "https://sampic-store.s3.fr-par.scw.cloud/e71fa2190541574b.png");

    let recorded = calls.borrow();
    assert_eq!(recorded.len(), 1);
    assert_eq!(recorded[0].0, "https://sampic.xyz/upload?extension=png&w=2&h=1");
    assert_eq!(recorded[0].1, buf);
}

#[test]
fn relay_save_error_propagates() {
    let conf = SampConf::default();
    let staging = Local::new(String::from("/tmp/"), MemDisk { files: new_files() });
    let s3 = S3Store::new(&conf, staging, MemStore { objects: new_files() });
    let relay = SampicServer::new(&conf, s3, FailRelay);
    let buf: Vec<u8> = vec![0];
    assert_eq!(
        relay.save(&buf, String::from("png"), 1, 1).unwrap_err(),
        StorageError::ReadError
    );
}

#[test]
fn read_to_surfaces_the_collaborator_error() {
    let local = Local::new(String::from("/tmp/"), MemDisk { files: new_files() });
    let mut out: Vec<u8> = Vec::new();
    assert_eq!(
        local.read_to(&String::from("missing.png"), &mut out).unwrap_err(),
        StorageError::IOError
    );

    let conf = SampConf::default();
    let staging = Local::new(String::from("/tmp/"), MemDisk { files: new_files() });
    let s3 = S3Store::new(&conf, staging, FailStore);
    assert_eq!(
        s3.read_to(&String::from("missing.png"), &mut out).unwrap_err(),
        StorageError::ReadError
    );
}

#[test]
fn read_to_appends_after_prior_contents() {
    let local = Local::new(String::from("/tmp/"), MemDisk { files: new_files() });
    let buf: Vec<u8> = vec![1, 2, 3];
    local.save(&buf, String::from("png"), 1, 1).unwrap();
    let name = format!("{}.png", local.hash(&buf));

    let mut out: Vec<u8> = vec![9];
    local.read_to(&name, &mut out).unwrap();
    assert_eq!(out, vec![9, 1, 2, 3]);

    // A failed read leaves the caller's buffer unchanged.
    assert!(local.read_to(&String::from("missing.png"), &mut out).is_err());
    assert_eq!(out, vec![9, 1, 2, 3]);
}

#[test]
fn s3_save_then_read_to_roundtrip() {
    let conf = SampConf::default();
    let objects = new_files();
    let staging = Local::new(String::from("/tmp/"), MemDisk { files: new_files() });
    let s3 = S3Store::new(&conf, staging, MemStore { objects: objects.clone() });
    let buf: Vec<u8> = vec![5, 6, 7];
    let link = s3.save(&buf, String::from("png"), 1, 1).unwrap();
    let name = format!("{}.png", s3.hash(&buf));
    assert!(link.ends_with(&name));
    let mut out: Vec<u8> = Vec::new();
    s3.read_to(&name, &mut out).unwrap();
    assert_eq!(out, buf);
}

#[test]
fn rgba_conversion_swaps_blue_and_red() {
    let frame: Vec<u8> = vec![1, 2, 3, 4, 5, 6, 7, 8];
    let out = rgba_from_frame(&frame, 2, 1);
    assert_eq!(out, vec![3, 2, 1, 255, 7, 6, 5, 255]);
}

#[test]
fn rgba_conversion_ignores_stride_padding() {
    // One row of one pixel plus four padding bytes: stride is 8.
    let frame: Vec<u8> = vec![10, 20, 30, 40, 0, 0, 0, 0];
    let out = rgba_from_frame(&frame, 1, 1);
    assert_eq!(out, vec![30, 20, 10, 255]);
}

#[test]
fn crop_takes_the_selected_rows_and_columns() {
    // A 3x2 capture whose pixel at (x, y) is [v, v, v, v] with v = 10*y + x.
    let mut pixels: Vec<u8> = Vec::new();
    for y in 0..2u8 {
        for x in 0..3u8 {
            let v = 10 * y + x;
            pixels.extend_from_slice(&[v, v, v, v]);
        }
    }
    let capture = Capture::new(pixels, 3, 2);
    let region = Region { x: 1, y: 1, width: 2, height: 1 };
    let cropped = crop(&capture, &region);
    assert_eq!(cropped.width, 2);
    assert_eq!(cropped.height, 1);
    assert_eq!(cropped.pixels, vec![11, 11, 11, 11, 12, 12, 12, 12]);
}

#[test]
fn crop_clamps_to_the_capture() {
    let capture = Capture::new(vec![7; 16], 2, 2);
    let region = Region { x: 1, y: 0, width: 100, height: 100 };
    let cropped = crop(&capture, &region);
    assert_eq!(cropped.width, 1);
    assert_eq!(cropped.height, 2);
    assert_eq!(cropped.pixels.len(), 8);
}

#[test]
fn config_defaults() {
    let conf = SampConf::default();
    assert_eq!(conf.api_key, "");
    assert_eq!(conf.region, "fr-par");
    assert_eq!(conf.endpoint, "https://s3.fr-par.scw.cloud");
    assert_eq!(conf.bucket, "sampic-store");
    assert_eq!(conf.local_path, "/tmp/");
    assert_eq!(conf.sampic_endpoint, "https://sampic.xyz/upload");
}

#[test]
fn config_keys_owed_and_refused() {
    let conf = SampConf::default();
    assert_eq!(api_key(&conf).unwrap_err(), ConfigError::APIKeyNotDefined);
    assert_eq!(api_secret_key(&conf).unwrap_err(), ConfigError::APISecretKeyNotDefined);
    let with_key = sampicore::config::set(conf, &String::from("api_key"), String::from("k1")).unwrap();
    assert_eq!(api_key(&with_key).unwrap(), "k1");
    assert_eq!(local_path(&with_key).unwrap(), "/tmp/");
}

#[test]
fn config_set_updates_one_field() {
    let conf = SampConf::default();
    let updated = sampicore::config::set(conf, &String::from("bucket"), String::from("other")).unwrap();
    assert_eq!(updated.bucket, "other");
    assert_eq!(updated.region, "fr-par");
    let refused = sampicore::config::set(updated, &String::from("nonsense"), String::from("x"));
    assert_eq!(refused.unwrap_err(), ConfigError::InvalidStorageValue);
}

#[test]
fn config_listing_lines() {
    let conf = SampConf::default();
    let text = list(&conf).unwrap();
    assert_eq!(
        text,
        "api_key=\napi_secret_key=\nregion=fr-par\nendpoint=https://s3.fr-par.scw.cloud\nbucket=sampic-store\nlocal_path=/tmp/\nsampic_endpoint=https://sampic.xyz/upload\n"
    );
}

#[test]
fn storage_error_messages() {
    assert_eq!(StorageError::SaveError.message(), "Save error");
    assert_eq!(StorageError::IOError.message(), "IO error");
    assert_eq!(StorageError::ReadError.message(), "Read error");
    assert_eq!(StorageError::UnknownError.message(), "Unknown error");
    assert_eq!(StorageError::ConfigError.message(), "Configuration error");
    assert_eq!(StorageError::CredentialsError.message(), "Configuration error");
}
