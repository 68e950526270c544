//! The server's side of an upload: admitting a request, placing each part
//! under the storage root, and the reply once every part is written.
use crate::naming::{
    is_identifier, join_path, join_spec, name_for, opt_view, stored_path_spec,
};
use crate::rejection::{status_of, Failure};
use crate::timestamp::{decimal, push_decimal, utc_now, CalendarTime};
use crate::wire::{join_paths, joined, views};
use vstd::prelude::*;

verus! {

/// The largest request body accepted: five gigabytes.
pub const MAX_BODY: u64 = 5_000_000_000;

/// Settings read once at startup.
#[derive(Clone, Debug)]
pub struct ServerConfig {
    /// The shared secret, if one is configured.
    pub secret: Option<String>,
    /// The directory files are stored under, if one is configured.
    pub storage_root: Option<String>,
    /// The largest request body accepted, in bytes.
    pub max_body: u64,
}

/// What is known of a request before its body is read.
#[derive(Clone, Debug)]
pub struct RequestHead {
    /// The value of the credential header, if the header is present.
    pub access_key: Option<String>,
    /// The declared length of the body, in bytes.
    pub body_len: u64,
}

pub const SECRET_UNSET: &'static str = "ACCESS_KEY undefined";
pub const ROOT_UNSET: &'static str = "UPLOAD_DIR undefined";

/// Whether a request may go on to have its parts stored; every check here
/// comes before anything is written.
pub fn check_request(head: &RequestHead, config: &ServerConfig) -> (r: Result<(), Failure>)
    ensures
        head.access_key is None ==> r matches Err(Failure::MissingHeader),
        head.access_key is Some && head.body_len > config.max_body ==> r matches Err(
            Failure::PayloadTooLarge,
        ),
        head.access_key is Some && head.body_len <= config.max_body && config.secret is None
            ==> (r matches Err(Failure::System(m)) && m@ == SECRET_UNSET@),
        head.access_key is Some && head.body_len <= config.max_body && config.secret is Some
            ==> (r is Ok <==> head.access_key.unwrap()@ == config.secret.unwrap()@),
        head.access_key is Some && head.body_len <= config.max_body && config.secret is Some
            ==> (r is Err ==> r matches Err(Failure::Unauthorized)),
        head.access_key is None ==> (r matches Err(f) && status_of(f) == 400),
        head.access_key is Some && head.body_len > config.max_body ==> (r matches Err(f)
            && status_of(f) == 400),
        head.access_key is Some && head.body_len <= config.max_body && config.secret is Some
            && head.access_key.unwrap()@ != config.secret.unwrap()@ ==> (r matches Err(f)
            && status_of(f) == 401),
{
    match &head.access_key {
        None => Err(Failure::MissingHeader),
        Some(key) => {
            if head.body_len > config.max_body {
                Err(Failure::PayloadTooLarge)
            } else {
                match &config.secret {
                    None => Err(Failure::System(SECRET_UNSET.to_owned())),
                    Some(secret) => {
                        if key.eq(secret) {
                            Ok(())
                        } else {
                            Err(Failure::Unauthorized)
                        }
                    },
                }
            }
        },
    }
}

/// Where one part goes: its path relative to the storage root, the bucket
/// directory to create, and the file to write.
#[derive(Clone, Debug)]
pub struct Placement {
    pub relative: String,
    pub bucket_dir: String,
    pub target: String,
}

/// The parts of one request stored so far, under one storage root.
pub struct Ingest {
    pub root: String,
    pub stored: Vec<String>,
}

impl Ingest {
    /// Starts a request once it is admitted; the storage root must be configured.
    pub fn start(config: &ServerConfig) -> (r: Result<Ingest, Failure>)
        ensures
            match r {
                Ok(ing) => config.storage_root is Some && ing.root@ == config.storage_root.unwrap()@
                    && ing.stored@.len() == 0,
                Err(f) => config.storage_root is None && (f matches Failure::System(m) && m@
                    == ROOT_UNSET@),
            },
    {
        match &config.storage_root {
            Some(root) => Ok(Ingest { root: root.clone(), stored: Vec::new() }),
            None => Err(Failure::System(ROOT_UNSET.to_owned())),
        }
    }

    /// Where a part named `filename` (or unnamed) goes when stored with
    /// identifier `id` in day bucket `bucket`.
    pub fn place_with(&self, bucket: &str, id: &str, filename: Option<&str>) -> (r: Placement)
        ensures
            r.relative@ == stored_path_spec(bucket@, id@, opt_view(filename)),
            r.bucket_dir@ == join_spec(self.root@, bucket@),
            r.target@ == join_spec(self.root@, r.relative@),
    {
        let relative = crate::naming::stored_path(bucket, id, filename);
        let bucket_dir = join_path(self.root.as_str(), bucket);
        let target = join_path(self.root.as_str(), relative.as_str());
        Placement { relative, bucket_dir, target }
    }

    /// Where a part named `filename` (or unnamed) that arrives at `now` goes:
    /// a fresh identifier under the day bucket of `now`.
    pub fn place(&self, filename: Option<&str>, now: &CalendarTime) -> (r: Placement)
        ensures
            exists|id: Seq<char>|
                is_identifier(id) && r.relative@ == #[trigger] stored_path_spec(
                    now.bucket_spec(),
                    id,
                    opt_view(filename),
                ),
            r.bucket_dir@ == join_spec(self.root@, now.bucket_spec()),
            r.target@ == join_spec(self.root@, r.relative@),
    {
        let bucket = now.bucket();
        let relative = name_for(filename, now);
        let bucket_dir = join_path(self.root.as_str(), bucket.as_str());
        let target = join_path(self.root.as_str(), relative.as_str());
        Placement { relative, bucket_dir, target }
    }

    /// Where a part named `filename` (or unnamed) arriving now goes, by the
    /// UTC day.
    pub fn place_now(&self, filename: Option<&str>) -> (r: Placement)
        ensures
            exists|t: CalendarTime|
                #![trigger t.bucket_spec()]
                t.wf() && r.bucket_dir@ == join_spec(self.root@, t.bucket_spec()) && exists|
                    id: Seq<char>,
                | is_identifier(id) && r.relative@ == #[trigger] stored_path_spec(
                    t.bucket_spec(),
                    id,
                    opt_view(filename),
                ),
            r.target@ == join_spec(self.root@, r.relative@),
    {
        let now = utc_now();
        self.place(filename, &now)
    }

    /// Records that a part was written at `relative`.
    pub fn stored(&mut self, relative: String)
        ensures
            final(self).root == old(self).root,
            final(self).stored@ == old(self).stored@.push(relative),
    {
        self.stored.push(relative);
    }

    /// The message logged once every part is written.
    pub fn summary(&self) -> (r: String)
        ensures
            r@ == "Uploaded "@ + decimal(self.stored@.len()) + " file[s]"@,
    {
        let mut s = "Uploaded ".to_owned();
        push_decimal(&mut s, self.stored.len() as u64);
        s.append(" file[s]");
        s
    }

    /// The reply body: the stored paths in arrival order, joined by spaces.
    pub fn body(&self) -> (r: String)
        ensures
            r@ == joined(views(self.stored@)),
    {
        join_paths(&self.stored)
    }
}

} // verus!
