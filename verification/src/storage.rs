//! Storage backends: the interface that turns a pixel buffer into a durably
//! stored, addressable object with a public link, and its three variants.
//!
//! `Local` writes an encoded image under a configured directory. `S3Store`
//! first stages a local temporary copy through `Local` and then uploads the
//! staged bytes to a remote bucket under the same name; a failed upload does
//! not roll the local copy back. `SampicServer` derives the name and link
//! locally and posts the raw bytes to a relay endpoint, reading back through
//! an internally owned `S3Store`.
//!
//! The durable writes themselves are input and output and go through the
//! collaborator traits `Disk`, `ObjectStore` and `RelayPost`, which the
//! surrounding program implements; every decision around them — naming,
//! link derivation, ordering, error propagation — is verified here for
//! every behaviour of the collaborators.
use crate::config::SampConf;
use crate::digest;
use vstd::pervasive::unreached;
use vstd::prelude::*;

verus! {

/// The error taxonomy of the storage pipeline.
#[derive(Clone, Copy, PartialEq, Eq, Structural, Debug)]
pub enum StorageError {
    SaveError,
    IOError,
    ReadError,
    ConfigError,
    CredentialsError,
    UnknownError,
}

impl StorageError {
    /// The message each error kind prints as.
    pub fn message(&self) -> (r: &'static str)
        ensures
            *self == StorageError::SaveError ==> r@ == "Save error"@,
            *self == StorageError::IOError ==> r@ == "IO error"@,
            *self == StorageError::ReadError ==> r@ == "Read error"@,
            *self == StorageError::UnknownError ==> r@ == "Unknown error"@,
            *self == StorageError::ConfigError ==> r@ == "Configuration error"@,
            *self == StorageError::CredentialsError ==> r@ == "Configuration error"@,
    {
        match self {
            StorageError::SaveError => "Save error",
            StorageError::IOError => "IO error",
            StorageError::ReadError => "Read error",
            StorageError::UnknownError => "Unknown error",
            StorageError::ConfigError => "Configuration error",
            StorageError::CredentialsError => "Configuration error",
        }
    }
}

pub type StorageResult<I> = Result<I, StorageError>;

/// Collaborator: the image codec on disk. `write_image` encodes a raw RGBA
/// buffer and writes it under a path; `read_file` appends a file's bytes
/// into the caller's buffer.
pub trait Disk {
    fn write_image(&self, path: &String, buffer: &[u8], w: u32, h: u32) -> Result<
        (),
        StorageError,
    >;

    fn read_file(&self, path: &String, to: &mut Vec<u8>) -> Result<(), StorageError>;
}

/// Collaborator: a remote object store with PUT/GET semantics. `put` stores
/// a body under a key with public-read access; `get` appends a stored
/// object's bytes into the caller's buffer.
pub trait ObjectStore {
    fn put(&self, bucket: &String, key: &String, body: &[u8]) -> Result<(), StorageError>;

    fn get(&self, bucket: &String, key: &String, to: &mut Vec<u8>) -> Result<(), StorageError>;
}

/// Collaborator: a POST of raw bytes to a relay endpoint, which is expected
/// to run the upload endpoint contract server-side.
pub trait RelayPost {
    fn post(&self, url: &String, body: &[u8]) -> Result<(), StorageError>;
}

/// A path under a base directory: `base/name`, with exactly one separator
/// between them, and `name` alone when the base is empty.
pub open spec fn joined_path(base: Seq<char>, name: Seq<char>) -> Seq<char> {
    if base.len() == 0 {
        name
    } else if base.last() == '/' {
        base + name
    } else {
        base + seq!['/'] + name
    }
}

/// Join a file name onto a base directory.
fn join_path(base: &String, name: &String) -> (r: String)
    ensures
        r@ == joined_path(base@, name@),
{
    let n = base.as_str().unicode_len();
    if n == 0 {
        name.clone()
    } else {
        let last = base.as_str().get_char(n - 1);
        let mut s = base.clone();
        proof {
            assert(base@.last() == base@[n as int - 1]);
        }
        if last != '/' {
            proof {
                reveal_strlit("/");
            }
            s.append("/");
            proof {
                assert(base@ + ("/")@ =~= base@ + seq!['/']);
            }
        }
        s.append(name.as_str());
        proof {
            if last != '/' {
                assert((base@ + seq!['/']) + name@ =~= base@ + seq!['/'] + name@);
            }
        }
        s
    }
}

/// The authority rewrite for a virtual-hosted-style bucket URL: every
/// occurrence of `://` in the endpoint becomes `://{bucket}.`, inserting
/// the bucket into the endpoint's authority.
pub open spec fn bucket_host(endpoint: Seq<char>, bucket: Seq<char>) -> Seq<char>
    decreases endpoint.len(),
{
    if endpoint.len() >= 3 && endpoint[0] == ':' && endpoint[1] == '/' && endpoint[2] == '/' {
        seq![':', '/', '/'] + bucket + seq!['.'] + bucket_host(endpoint.skip(3), bucket)
    } else if endpoint.len() > 0 {
        seq![endpoint[0]] + bucket_host(endpoint.skip(1), bucket)
    } else {
        endpoint
    }
}

/// Insert the bucket into the endpoint's authority.
fn bucket_host_exec(endpoint: &String, bucket: &String) -> (r: String)
    ensures
        r@ == bucket_host(endpoint@, bucket@),
{
    let ep = endpoint.as_str();
    let n = ep.unicode_len();
    let mut r = String::new();
    let mut i: usize = 0;
    proof {
        reveal_strlit("://");
        reveal_strlit(".");
        assert(endpoint@.skip(0) =~= endpoint@);
        assert(r@ + bucket_host(endpoint@.skip(0), bucket@) =~= bucket_host(endpoint@, bucket@));
    }
    while i < n
        invariant
            i <= n,
            n == endpoint@.len(),
            ep@ == endpoint@,
            bucket_host(endpoint@, bucket@) == r@ + bucket_host(
                endpoint@.skip(i as int),
                bucket@,
            ),
        decreases n - i,
    {
        let ghost rest = endpoint@.skip(i as int);
        proof {
            reveal_strlit("://");
            reveal_strlit(".");
            assert(rest.len() == n - i);
            assert(forall|k: int| 0 <= k < rest.len() ==> #[trigger] rest[k] == endpoint@[i + k]);
        }
        let ghost r0 = r@;
        if n - i >= 3 && ep.get_char(i) == ':' && ep.get_char(i + 1) == '/' && ep.get_char(i + 2)
            == '/' {
            r.append("://");
            r.append(bucket.as_str());
            r.append(".");
            proof {
                let tail = bucket_host(endpoint@.skip(i + 3), bucket@);
                assert(("://")@ =~= seq![':', '/', '/']);
                assert((".")@ =~= seq!['.']);
                assert(rest[0] == ':' && rest[1] == '/' && rest[2] == '/');
                assert(rest.skip(3) =~= endpoint@.skip(i + 3));
                assert(bucket_host(rest, bucket@) == seq![':', '/', '/'] + bucket@ + seq!['.']
                    + tail);
                assert(r@ =~= r0 + seq![':', '/', '/'] + bucket@ + seq!['.']);
                assert(r0 + (seq![':', '/', '/'] + bucket@ + seq!['.'] + tail) =~= r@ + tail);
            }
            i = i + 3;
        } else {
            let piece = ep.substring_char(i, i + 1);
            r.append(piece);
            proof {
                let tail = bucket_host(endpoint@.skip(i + 1), bucket@);
                assert(piece@ =~= seq![endpoint@[i as int]]);
                assert(rest[0] == endpoint@[i as int]);
                assert(rest.skip(1) =~= endpoint@.skip(i + 1));
                if rest.len() >= 3 && rest[0] == ':' && rest[1] == '/' && rest[2] == '/' {
                    assert(false);
                }
                assert(bucket_host(rest, bucket@) == seq![rest[0]] + tail);
                assert(r0 + (seq![rest[0]] + tail) =~= r@ + tail);
            }
            i = i + 1;
        }
    }
    proof {
        assert(endpoint@.skip(n as int) =~= Seq::<char>::empty());
        assert(bucket_host(Seq::<char>::empty(), bucket@) == Seq::<char>::empty());
        assert(r@ + Seq::<char>::empty() =~= r@);
    }
    r
}

/// The decimal digit for a value below 10.
pub open spec fn dec_digit(n: u64) -> char {
    if n == 0 {
        '0'
    } else if n == 1 {
        '1'
    } else if n == 2 {
        '2'
    } else if n == 3 {
        '3'
    } else if n == 4 {
        '4'
    } else if n == 5 {
        '5'
    } else if n == 6 {
        '6'
    } else if n == 7 {
        '7'
    } else if n == 8 {
        '8'
    } else {
        '9'
    }
}

/// Decimal rendering of a value, most significant digit first.
pub open spec fn dec_seq(n: u64) -> Seq<char>
    decreases n,
{
    if n < 10 {
        seq![dec_digit(n)]
    } else {
        dec_seq(n / 10).push(dec_digit(n % 10))
    }
}

/// The decimal digit, as a one-character string slice.
fn dec_digit_str(n: u64) -> (r: &'static str)
    requires
        n < 10,
    ensures
        r@ == seq![dec_digit(n)],
{
    proof {
        reveal_strlit("0");
        reveal_strlit("1");
        reveal_strlit("2");
        reveal_strlit("3");
        reveal_strlit("4");
        reveal_strlit("5");
        reveal_strlit("6");
        reveal_strlit("7");
        reveal_strlit("8");
        reveal_strlit("9");
    }
    let r = if n == 0 {
        "0"
    } else if n == 1 {
        "1"
    } else if n == 2 {
        "2"
    } else if n == 3 {
        "3"
    } else if n == 4 {
        "4"
    } else if n == 5 {
        "5"
    } else if n == 6 {
        "6"
    } else if n == 7 {
        "7"
    } else if n == 8 {
        "8"
    } else {
        "9"
    };
    proof {
        assert(r@ =~= seq![dec_digit(n)]);
    }
    r
}

/// Decimal rendering of a value.
pub fn to_dec(n: u64) -> (r: String)
    ensures
        r@ == dec_seq(n),
    decreases n,
{
    if n < 10 {
        String::from_str(dec_digit_str(n))
    } else {
        let mut s = to_dec(n / 10);
        s.append(dec_digit_str(n % 10));
        proof {
            assert(dec_seq(n / 10).push(dec_digit(n % 10)) =~= dec_seq(n / 10) + seq![
                dec_digit(n % 10),
            ]);
        }
        s
    }
}

/// The relay upload URL: the endpoint with the extension and the cropped
/// dimensions as query parameters.
pub open spec fn upload_url(endpoint: Seq<char>, extension: Seq<char>, w: u32, h: u32) -> Seq<
    char,
> {
    endpoint + "?extension="@ + extension + "&w="@ + dec_seq(w as u64) + "&h="@ + dec_seq(h as u64)
}

/// Build the relay upload URL.
fn upload_url_exec(endpoint: &String, extension: &str, w: u32, h: u32) -> (r: String)
    ensures
        r@ == upload_url(endpoint@, extension@, w, h),
{
    let mut s = endpoint.clone();
    s.append("?extension=");
    s.append(extension);
    s.append("&w=");
    let wd = to_dec(w as u64);
    s.append(wd.as_str());
    s.append("&h=");
    let hd = to_dec(h as u64);
    s.append(hd.as_str());
    proof {
        assert(s@ =~= upload_url(endpoint@, extension@, w, h));
    }
    s
}

/// The storage backend interface: persist a buffer under its digest-derived
/// name, read stored bytes back, and derive the public link for a name.
pub trait Storage: Sized {
    /// The link this backend derives for a stored name: a pure function of
    /// the backend's configuration and the name alone.
    spec fn link_of(&self, name: Seq<char>) -> Seq<char>;

    /// Persist the buffer under the name `{digest}.{extension}` and return
    /// the public link for it. Whatever the collaborators did, a returned
    /// link is exactly the one `link` derives for the digest-derived name,
    /// so re-saving identical bytes addresses the identical object.
    fn save(&self, buffer: &[u8], extension: String, w: u32, h: u32) -> (r: StorageResult<String>)
        ensures
            r matches Ok(l) ==> l@ == self.link_of(digest::object_name(buffer@, extension@)),
    ;

    /// Fetch previously stored bytes by name, appending into `to`: on
    /// success the caller's prior contents stay in place as a prefix and
    /// the fetched bytes follow them; on failure `to` is unchanged.
    fn read_to(&self, name: &String, to: &mut Vec<u8>) -> (r: StorageResult<()>)
        ensures
            r matches Ok(_) ==> old(to)@.is_prefix_of(final(to)@),
            r matches Err(_) ==> final(to)@ == old(to)@,
    ;

    /// Derive the public link for a stored name. A pure string derivation:
    /// it never fails, performs no input or output, and does not require a
    /// prior successful `save` of the name.
    fn link(&self, name: &String) -> (r: StorageResult<String>)
        ensures
            r matches Ok(l) && l@ == self.link_of(name@),
    ;

    /// The content digest of a buffer: deterministic, identical across
    /// repeated calls and across all backend variants.
    fn hash(&self, buffer: &[u8]) -> (r: String)
        ensures
            r@ == digest::digest_of(buffer@),
    ;
}

/// The local backend: writes the encoded image under a configured
/// directory; the link is the local filesystem path.
pub struct Local<D: Disk> {
    pub path: String,
    pub disk: D,
}

impl<D: Disk> Local<D> {
    /// A local backend rooted at `path`, writing through `disk`.
    pub fn new(path: String, disk: D) -> (r: Self)
        ensures
            r.path == path,
            r.disk == disk,
    {
        Local { path, disk }
    }
}

impl<D: Disk> Storage for Local<D> {
    open spec fn link_of(&self, name: Seq<char>) -> Seq<char> {
        joined_path(self.path@, name)
    }

    fn save(&self, buffer: &[u8], extension: String, w: u32, h: u32) -> (r: StorageResult<String>)
    {
        let name = digest::object_name_of(buffer, extension.as_str());
        let file_path = join_path(&self.path, &name);
        match self.disk.write_image(&file_path, buffer, w, h) {
            Ok(_) => Ok(file_path),
            Err(e) => Err(e),
        }
    }

    fn read_to(&self, name: &String, to: &mut Vec<u8>) -> (r: StorageResult<()>) {
        let file_path = join_path(&self.path, name);
        let mut fetched: Vec<u8> = Vec::new();
        match self.disk.read_file(&file_path, &mut fetched) {
            Ok(_) => {
                to.append(&mut fetched);
                Ok(())
            },
            Err(e) => Err(e),
        }
    }

    fn link(&self, name: &String) -> (r: StorageResult<String>) {
        Ok(join_path(&self.path, name))
    }

    fn hash(&self, buffer: &[u8]) -> (r: String) {
        digest::hash_bytes(buffer)
    }
}

/// The remote-object backend: stages a local temporary copy through a
/// `Local` backend, then uploads the staged bytes to a remote bucket under
/// the same name. A failed upload leaves the staged local copy in place;
/// the link is a virtual-hosted-style URL over the configured endpoint.
pub struct S3Store<D: Disk, O: ObjectStore> {
    pub bucket: String,
    pub endpoint: String,
    pub local: Local<D>,
    pub store: O,
}

impl<D: Disk, O: ObjectStore> S3Store<D, O> {
    /// A remote-object backend over the configured bucket and endpoint,
    /// staging through `local` and uploading through `store`.
    pub fn new(conf: &SampConf, local: Local<D>, store: O) -> (r: Self)
        ensures
            r.bucket@ == conf.bucket@,
            r.endpoint@ == conf.endpoint@,
            r.local == local,
            r.store == store,
    {
        S3Store {
            bucket: conf.bucket.clone(),
            endpoint: conf.endpoint.clone(),
            local,
            store,
        }
    }
}

impl<D: Disk, O: ObjectStore> Storage for S3Store<D, O> {
    open spec fn link_of(&self, name: Seq<char>) -> Seq<char> {
        bucket_host(self.endpoint@, self.bucket@) + seq!['/'] + name
    }

    fn save(&self, buffer: &[u8], extension: String, w: u32, h: u32) -> (r: StorageResult<String>)
    {
        let name = digest::object_name_of(buffer, extension.as_str());
        let link = match self.link(&name) {
            Ok(l) => l,
            Err(_) => unreached(),
        };
        let staged_path = match self.local.save(buffer, extension, w, h) {
            Ok(p) => p,
            Err(e) => {
                return Err(e);
            },
        };
        let mut staged: Vec<u8> = Vec::new();
        if let Err(e) = self.local.disk.read_file(&staged_path, &mut staged) {
            return Err(e);
        }
        match self.store.put(&self.bucket, &name, staged.as_slice()) {
            Ok(_) => Ok(link),
            Err(e) => Err(e),
        }
    }

    fn read_to(&self, name: &String, to: &mut Vec<u8>) -> (r: StorageResult<()>) {
        let mut fetched: Vec<u8> = Vec::new();
        match self.store.get(&self.bucket, name, &mut fetched) {
            Ok(_) => {
                to.append(&mut fetched);
                Ok(())
            },
            Err(e) => Err(e),
        }
    }

    fn link(&self, name: &String) -> (r: StorageResult<String>) {
        let mut s = bucket_host_exec(&self.endpoint, &self.bucket);
        proof {
            reveal_strlit("/");
        }
        s.append("/");
        s.append(name.as_str());
        proof {
            assert(s@ =~= self.link_of(name@));
        }
        Ok(s)
    }

    fn hash(&self, buffer: &[u8]) -> (r: String) {
        digest::hash_bytes(buffer)
    }
}

/// The relay backend: derives the name and link locally, so the caller has
/// a correct link before any network round-trip, then posts the raw bytes
/// to the relay endpoint. Reads and links go through an internally owned
/// remote-object backend; the relay is trusted to store into the same
/// bucket that backend reads from.
pub struct SampicServer<D: Disk, O: ObjectStore, R: RelayPost> {
    pub endpoint: String,
    pub s3: S3Store<D, O>,
    pub relay: R,
}

impl<D: Disk, O: ObjectStore, R: RelayPost> SampicServer<D, O, R> {
    /// A relay backend posting to the configured relay endpoint, reading
    /// back through `s3` and posting through `relay`.
    pub fn new(conf: &SampConf, s3: S3Store<D, O>, relay: R) -> (r: Self)
        ensures
            r.endpoint@ == conf.sampic_endpoint@,
            r.s3 == s3,
            r.relay == relay,
    {
        SampicServer { endpoint: conf.sampic_endpoint.clone(), s3, relay }
    }
}

impl<D: Disk, O: ObjectStore, R: RelayPost> Storage for SampicServer<D, O, R> {
    open spec fn link_of(&self, name: Seq<char>) -> Seq<char> {
        self.s3.link_of(name)
    }

    fn save(&self, buffer: &[u8], extension: String, w: u32, h: u32) -> (r: StorageResult<String>)
    {
        let name = digest::object_name_of(buffer, extension.as_str());
        let link = match self.link(&name) {
            Ok(l) => l,
            Err(_) => unreached(),
        };
        let url = upload_url_exec(&self.endpoint, extension.as_str(), w, h);
        match self.relay.post(&url, buffer) {
            Ok(_) => Ok(link),
            Err(e) => Err(e),
        }
    }

    fn read_to(&self, name: &String, to: &mut Vec<u8>) -> (r: StorageResult<()>) {
        self.s3.read_to(name, to)
    }

    fn link(&self, name: &String) -> (r: StorageResult<String>) {
        self.s3.link(name)
    }

    fn hash(&self, buffer: &[u8]) -> (r: String) {
        digest::hash_bytes(buffer)
    }
}

/// Law (idempotent save): saving identical bytes with an identical
/// extension derives the identical object name, and so the identical link,
/// through any backend; re-saving addresses the same object rather than
/// creating a logically new one.
pub proof fn lemma_idempotent_save<S: Storage>(s: &S, b1: Seq<u8>, b2: Seq<u8>, ext: Seq<char>)
    requires
        b1 =~= b2,
    ensures
        digest::object_name(b1, ext) == digest::object_name(b2, ext),
        s.link_of(digest::object_name(b1, ext)) == s.link_of(digest::object_name(b2, ext)),
{
    digest::lemma_digest_deterministic(b1, b2, ext);
}

} // verus!
