use crate::text::joined;
use vstd::prelude::*;
use vstd::string::*;

verus! {

/// The scheme that every object-storage reference starts with.
pub open spec fn scheme() -> Seq<char> {
    seq!['g', 's', ':', '/', '/']
}

/// `s` starts with the object-storage scheme.
pub open spec fn has_scheme(s: Seq<char>) -> bool {
    s.len() >= 5 && s.subrange(0, 5) == scheme()
}

/// No character of `s` is a slash.
pub open spec fn slash_free(s: Seq<char>) -> bool {
    forall|i: int| 0 <= i < s.len() ==> s[i] != '/'
}

/// A parsed `gs://bucket[/object]` reference; an empty object name counts as none.
#[derive(Clone, Debug)]
pub struct Destination {
    pub bucket: String,
    pub object: Option<String>,
}

/// Why a destination reference was refused.
#[derive(Clone, Copy, Debug, PartialEq, Eq, Structural)]
pub enum DestinationError {
    MissingScheme,
}

impl DestinationError {
    /// The text shown for this error.
    pub fn message(&self) -> (r: String)
        ensures
            r@ == "Invalid GCS URL: must start with gs://"@,
    {
        "Invalid GCS URL: must start with gs://".to_owned()
    }
}

/// `d` is what the text `rest`, found after the scheme, names: the bucket runs to the first
/// slash, and the object is what follows it, when that is not empty.
pub open spec fn names(rest: Seq<char>, d: Destination) -> bool {
    if slash_free(rest) {
        d.bucket@ == rest && d.object.is_none()
    } else {
        exists|k: int|
            0 <= k < rest.len() && rest[k] == '/' && slash_free(#[trigger] rest.subrange(0, k))
                && d.bucket@ == rest.subrange(0, k) && if k + 1 == rest.len() {
                d.object.is_none()
            } else {
                d.object is Some && d.object->0@ == rest.subrange(k + 1, rest.len() as int)
            }
    }
}

/// Whether `s` starts with the object-storage scheme.
pub fn starts_with_scheme(s: &str) -> (r: bool)
    ensures
        r == has_scheme(s@),
{
    let n = s.unicode_len();
    if n < 5 {
        return false;
    }
    let r = s.get_char(0) == 'g' && s.get_char(1) == 's' && s.get_char(2) == ':' && s.get_char(3)
        == '/' && s.get_char(4) == '/';
    proof {
        if r {
            assert(s@.subrange(0, 5) =~= scheme());
        } else {
            if s@.subrange(0, 5) == scheme() {
                assert(s@.subrange(0, 5)[0] == 'g');
                assert(s@.subrange(0, 5)[1] == 's');
                assert(s@.subrange(0, 5)[2] == ':');
                assert(s@.subrange(0, 5)[3] == '/');
                assert(s@.subrange(0, 5)[4] == '/');
            }
        }
    }
    r
}

/// Parses a `gs://bucket[/object]` reference.
pub fn parse_destination(url: &str) -> (r: Result<Destination, DestinationError>)
    ensures
        r is Err <==> !has_scheme(url@),
        r is Ok ==> names(url@.subrange(5, url@.len() as int), r->Ok_0),
{
    if !starts_with_scheme(url) {
        return Err(DestinationError::MissingScheme);
    }
    let n = url.unicode_len();
    let ghost rest = url@.subrange(5, n as int);
    let mut i: usize = 5;
    while i < n
        invariant
            5 <= i <= n,
            n == url@.len(),
            has_scheme(url@),
            rest == url@.subrange(5, n as int),
            forall|j: int| 5 <= j < i ==> url@[j] != '/',
        decreases n - i,
    {
        if url.get_char(i) == '/' {
            let bucket = url.substring_char(5, i).to_owned();
            let object = if i + 1 == n {
                None
            } else {
                Some(url.substring_char(i + 1, n).to_owned())
            };
            let d = Destination { bucket, object };
            proof {
                let k = i - 5;
                assert(rest[k] == '/');
                assert(!slash_free(rest));
                assert(rest.subrange(0, k) =~= url@.subrange(5, i as int));
                assert(slash_free(rest.subrange(0, k)));
                if i + 1 < n {
                    assert(rest.subrange(k + 1, rest.len() as int) =~= url@.subrange(
                        i + 1,
                        n as int,
                    ));
                }
                assert(names(rest, d));
            }
            return Ok(d);
        }
        i += 1;
    }
    let d = Destination { bucket: url.substring_char(5, n).to_owned(), object: None };
    proof {
        assert(slash_free(rest));
    }
    Ok(d)
}

/// The full reference `gs://bucket/object`.
pub fn object_reference(bucket: &str, object: &str) -> (r: String)
    ensures
        r@ == scheme() + bucket@ + seq!['/'] + object@,
{
    let head = joined("gs://", bucket);
    let with_slash = joined(head.as_str(), "/");
    let r = joined(with_slash.as_str(), object);
    proof {
        reveal_strlit("gs://");
        reveal_strlit("/");
        assert("gs://"@ =~= scheme());
        assert("/"@ =~= seq!['/']);
    }
    r
}

/// The object name used when a destination names none: `insta_state_<stamp>.json`.
pub fn default_object_name(stamp: &str) -> (r: String)
    ensures
        r@ == "insta_state_"@ + stamp@ + ".json"@,
{
    let head = joined("insta_state_", stamp);
    joined(head.as_str(), ".json")
}

/// Where a captured session goes: the bucket, and the object name to write.
#[derive(Clone, Debug)]
pub struct UploadTarget {
    pub bucket: String,
    pub object: String,
}

impl UploadTarget {
    /// The full reference to the object.
    pub fn reference(&self) -> (r: String)
        ensures
            r@ == scheme() + self.bucket@ + seq!['/'] + self.object@,
    {
        object_reference(self.bucket.as_str(), self.object.as_str())
    }
}

/// The upload target for `url`, with the object named after `stamp` when `url` names none.
pub fn upload_target_with(url: &str, stamp: &str) -> (r: Result<UploadTarget, DestinationError>)
    ensures
        r is Err <==> !has_scheme(url@),
        r is Ok ==> exists|d: Destination|
            names(url@.subrange(5, url@.len() as int), d) && #[trigger] d.bucket@ == r->Ok_0.bucket@
                && match d.object {
                Some(o) => r->Ok_0.object@ == o@,
                None => r->Ok_0.object@ == "insta_state_"@ + stamp@ + ".json"@,
            },
{
    match parse_destination(url) {
        Err(e) => Err(e),
        Ok(d) => {
            let object = match &d.object {
                Some(o) => o.clone(),
                None => default_object_name(stamp),
            };
            let t = UploadTarget { bucket: d.bucket.clone(), object };
            proof {
                assert(d.bucket@ == t.bucket@);
            }
            Ok(t)
        },
    }
}

/// The upload target for `url`, with the object named after the current UTC time when `url`
/// names none.
pub fn upload_target(url: &str) -> (r: Result<UploadTarget, DestinationError>)
    ensures
        r is Err <==> !has_scheme(url@),
        r is Ok ==> exists|d: Destination|
            names(url@.subrange(5, url@.len() as int), d) && #[trigger] d.bucket@ == r->Ok_0.bucket@
                && match d.object {
                Some(o) => r->Ok_0.object@ == o@,
                None => exists|stamp: Seq<char>|
                    r->Ok_0.object@ == "insta_state_"@ + stamp + ".json"@,
            },
{
    let stamp = crate::clock::now_formatted("%Y%m%dT%H%M%SZ");
    upload_target_with(url, stamp.as_str())
}

} // verus!
