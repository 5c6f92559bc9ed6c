//! The flat string-keyed configuration bag: construction with environment
//! overlay, the `allow_http` flag, and provider-scoped filtered views.

use crate::providers::{azure_canon, azure_canon_key, gcs_canon, gcs_canon_key, s3_canon,
    s3_canon_key};
use crate::strutil::{ascii_lower, contains_substr, is_truthy, lower_seq, spec_contains,
    str_eq, str_is_truthy};
use vstd::prelude::*;

verus! {

/// The mathematical view of a vector of string pairs: the same pairs, as
/// character sequences.
pub open spec fn pairs_view(v: Seq<(String, String)>) -> Seq<(Seq<char>, Seq<char>)> {
    v.map_values(|p: (String, String)| (p.0@, p.1@))
}

/// Does the association sequence hold an entry with exactly this key?
pub open spec fn has_key(bag: Seq<(Seq<char>, Seq<char>)>, k: Seq<char>) -> bool {
    exists|i: int| 0 <= i < bag.len() && (#[trigger] bag[i]).0 == k
}

/// Overwrite the value of key `k` with `v`: every entry carrying `k` gets
/// the new value; when `k` is absent the pair is appended. On a bag with
/// unique keys this is exactly map insertion.
pub open spec fn spec_set_key(
    bag: Seq<(Seq<char>, Seq<char>)>,
    k: Seq<char>,
    v: Seq<char>,
) -> Seq<(Seq<char>, Seq<char>)> {
    if has_key(bag, k) {
        bag.map_values(|p: (Seq<char>, Seq<char>)| if p.0 == k { (k, v) } else { p })
    } else {
        bag.push((k, v))
    }
}

/// The three environment-derived overrides consulted at construction, in
/// the fixed order in which they are applied. Each field carries the value
/// of the environment variable of the same (upper-cased) name, when that
/// variable is set.
#[derive(Debug, Clone)]
pub struct EnvOverrides {
    pub azure_storage_allow_http: Option<String>,
    pub azure_storage_use_http: Option<String>,
    pub aws_storage_allow_http: Option<String>,
}

/// Overlay a single optional override onto the `allow_http` key.
pub open spec fn apply_override(
    bag: Seq<(Seq<char>, Seq<char>)>,
    o: Option<String>,
) -> Seq<(Seq<char>, Seq<char>)> {
    match o {
        Option::Some(v) => spec_set_key(bag, "allow_http"@, v@),
        Option::None => bag,
    }
}

/// Overlay all three environment overrides in their fixed order: the Azure
/// allow-http variable, then the Azure use-http variable, then the AWS
/// allow-http variable. A later override overwrites an earlier one, so
/// when several are set the AWS variable wins.
pub open spec fn apply_env(
    bag: Seq<(Seq<char>, Seq<char>)>,
    env: EnvOverrides,
) -> Seq<(Seq<char>, Seq<char>)> {
    apply_override(
        apply_override(apply_override(bag, env.azure_storage_allow_http), env.azure_storage_use_http),
        env.aws_storage_allow_http,
    )
}

/// Options used for configuring backend storage: an association sequence
/// from string key to string value. Keys are free-form; when the bag is
/// built from a map its keys are unique, and every operation here keeps
/// them unique.
#[derive(Debug, Clone)]
pub struct StorageOptions(pub Vec<(String, String)>);

impl View for StorageOptions {
    type V = Seq<(Seq<char>, Seq<char>)>;

    open spec fn view(&self) -> Self::V {
        pairs_view(self.0@)
    }
}

/// Overwrite the value of `key` with `value` in a pair vector, appending
/// the pair when the key is absent.
pub fn set_key(bag: Vec<(String, String)>, key: &str, value: &str) -> (r: Vec<(String, String)>)
    ensures
        pairs_view(r@) == spec_set_key(pairs_view(bag@), key@, value@),
{
    let ghost rep = |p: (Seq<char>, Seq<char>)| if p.0 == key@ { (key@, value@) } else { p };
    let mut out: Vec<(String, String)> = Vec::new();
    let mut found = false;
    let mut i: usize = 0;
    while i < bag.len()
        invariant
            0 <= i <= bag@.len(),
            found == has_key(pairs_view(bag@).take(i as int), key@),
            pairs_view(out@) =~= pairs_view(bag@).take(i as int).map_values(rep),
            rep == (|p: (Seq<char>, Seq<char>)| if p.0 == key@ { (key@, value@) } else { p }),
        decreases bag@.len() - i,
    {
        let e = &bag[i];
        if str_eq(e.0.as_str(), key) {
            out.push((key.to_owned(), value.to_owned()));
            found = true;
        } else {
            out.push((e.0.clone(), e.1.clone()));
        }
        proof {
            assert(pairs_view(bag@).take(i + 1) =~= pairs_view(bag@).take(i as int).push(
                pairs_view(bag@)[i as int],
            ));
            assert(pairs_view(bag@).take(i + 1).map_values(rep) =~= pairs_view(bag@).take(
                i as int,
            ).map_values(rep).push(rep(pairs_view(bag@)[i as int])));
            if !has_key(pairs_view(bag@).take(i + 1), key@) {
                assert(pairs_view(bag@).take(i + 1)[i as int].0 != key@);
            }
        }
        i = i + 1;
    }
    proof {
        assert(pairs_view(bag@).take(bag@.len() as int) =~= pairs_view(bag@));
    }
    if found {
        proof {
            assert(pairs_view(out@) =~= spec_set_key(pairs_view(bag@), key@, value@));
        }
        out
    } else {
        let mut out2 = out;
        out2.push((key.to_owned(), value.to_owned()));
        proof {
            assert forall|j: int| 0 <= j < pairs_view(bag@).len() implies #[trigger] rep(
                pairs_view(bag@)[j],
            ) == pairs_view(bag@)[j] by {
                assert(pairs_view(bag@)[j].0 != key@);
            }
            assert(pairs_view(bag@).map_values(rep) =~= pairs_view(bag@));
            assert(pairs_view(out2@) =~= pairs_view(bag@).push((key@, value@)));
        }
        out2
    }
}

/// Any key whose lowercased form contains the substring `allow_http`
/// anywhere, paired with a truthy value, turns the flag on.
pub open spec fn spec_allow_http(bag: Seq<(Seq<char>, Seq<char>)>) -> bool {
    exists|i: int|
        0 <= i < bag.len() && spec_contains(lower_seq((#[trigger] bag[i]).0), "allow_http"@)
            && is_truthy(bag[i].1)
}

/// The filtered, deduplicated provider view of a bag: entries whose
/// lowercased key `canon` recognizes, re-keyed by the canonical spelling,
/// applied in bag order. When two raw keys canonicalize to the same
/// provider key, the later entry's value wins while the earlier entry's
/// position is kept.
pub open spec fn provider_view(
    bag: Seq<(Seq<char>, Seq<char>)>,
    canon: spec_fn(Seq<char>) -> Option<Seq<char>>,
) -> Seq<(Seq<char>, Seq<char>)>
    decreases bag.len(),
{
    if bag.len() == 0 {
        Seq::empty()
    } else {
        let prev = provider_view(bag.drop_last(), canon);
        match canon(lower_seq(bag.last().0)) {
            Option::Some(ck) => spec_set_key(prev, ck, bag.last().1),
            Option::None => prev,
        }
    }
}

/// The key is present in the bag and every entry carrying it holds this
/// value.
pub open spec fn key_maps_to(
    bag: Seq<(Seq<char>, Seq<char>)>,
    k: Seq<char>,
    v: Seq<char>,
) -> bool {
    has_key(bag, k) && forall|i: int|
        0 <= i < bag.len() && (#[trigger] bag[i]).0 == k ==> bag[i].1 == v
}

/// Overwriting a key makes the bag map it to the new value.
pub proof fn lemma_set_key_maps_to(bag: Seq<(Seq<char>, Seq<char>)>, k: Seq<char>, v: Seq<char>)
    ensures
        key_maps_to(spec_set_key(bag, k, v), k, v),
{
    let out = spec_set_key(bag, k, v);
    if has_key(bag, k) {
        let w = choose|i: int| 0 <= i < bag.len() && (#[trigger] bag[i]).0 == k;
        assert(out[w] == (k, v));
        assert(has_key(out, k));
        assert forall|i: int| 0 <= i < out.len() && (#[trigger] out[i]).0 == k implies out[i].1
            == v by {
            if bag[i].0 == k {
                assert(out[i] == (k, v));
            } else {
                assert(out[i] == bag[i]);
            }
        }
    } else {
        assert(out[bag.len() as int] == (k, v));
        assert(has_key(out, k));
        assert forall|i: int| 0 <= i < out.len() && (#[trigger] out[i]).0 == k implies out[i].1
            == v by {
            if i < bag.len() {
                assert(out[i] == bag[i]);
                assert(bag[i].0 != k);
            }
        }
    }
}

/// Environment precedence: when the AWS allow-http variable is set,
/// construction leaves the `allow_http` key bound to exactly its value,
/// whatever the raw bag and the two Azure variables hold — the
/// last-checked variable wins.
pub proof fn lemma_env_precedence(bag: Seq<(Seq<char>, Seq<char>)>, env: EnvOverrides, v: String)
    requires
        env.aws_storage_allow_http == Option::Some(v),
    ensures
        key_maps_to(apply_env(bag, env), "allow_http"@, v@),
{
    let mid = apply_override(
        apply_override(bag, env.azure_storage_allow_http),
        env.azure_storage_use_http,
    );
    lemma_set_key_maps_to(mid, "allow_http"@, v@);
}

/// The constant key written by the environment overlay qualifies for the
/// `allow_http` scan: its lowercased form contains itself.
pub proof fn lemma_allow_http_key_matches()
    ensures
        spec_contains(lower_seq("allow_http"@), "allow_http"@),
{
    reveal_strlit("allow_http");
    let s = "allow_http"@;
    assert(lower_seq(s) =~= s);
    assert(lower_seq(s).subrange(0, 0 + s.len() as int) =~= s);
}

/// A truthy AWS allow-http variable forces `allow_http` to hold of the
/// constructed options, whatever the raw bag and the Azure variables
/// hold.
pub proof fn lemma_env_allow_http(bag: Seq<(Seq<char>, Seq<char>)>, env: EnvOverrides, v: String)
    requires
        env.aws_storage_allow_http == Option::Some(v),
        is_truthy(v@),
    ensures
        spec_allow_http(apply_env(bag, env)),
{
    let out = apply_env(bag, env);
    lemma_env_precedence(bag, env, v);
    let w = choose|i: int| 0 <= i < out.len() && (#[trigger] out[i]).0 == "allow_http"@;
    lemma_allow_http_key_matches();
    assert(out[w].1 == v@);
    assert(spec_contains(lower_seq(out[w].0), "allow_http"@) && is_truthy(out[w].1));
}

impl StorageOptions {
    /// Create a new instance from a raw bag, overlaying the three
    /// environment-derived overrides onto the `allow_http` key in their
    /// fixed order; the AWS variable is checked last and therefore wins
    /// over the Azure ones and over any caller-supplied value.
    pub fn new(options: Vec<(String, String)>, env: &EnvOverrides) -> (r: Self)
        ensures
            r@ == apply_env(pairs_view(options@), *env),
    {
        let mut bag = options;
        match &env.azure_storage_allow_http {
            Some(v) => {
                bag = set_key(bag, "allow_http", v.as_str());
            },
            None => {},
        }
        match &env.azure_storage_use_http {
            Some(v) => {
                bag = set_key(bag, "allow_http", v.as_str());
            },
            None => {},
        }
        match &env.aws_storage_allow_http {
            Some(v) => {
                bag = set_key(bag, "allow_http", v.as_str());
            },
            None => {},
        }
        StorageOptions(bag)
    }

    /// Denotes if unsecure connections via http are allowed: true exactly
    /// when some key whose lowercased form contains `allow_http` carries a
    /// truthy value.
    pub fn allow_http(&self) -> (r: bool)
        ensures
            r == spec_allow_http(self@),
    {
        let mut i: usize = 0;
        while i < self.0.len()
            invariant
                0 <= i <= self.0@.len(),
                !spec_allow_http(self@.take(i as int)),
            decreases self.0@.len() - i,
        {
            let e = &self.0[i];
            let lk = ascii_lower(e.0.as_str());
            if contains_substr(lk.as_str(), "allow_http") && str_is_truthy(e.1.as_str()) {
                proof {
                    assert(self@[i as int] == (self.0@[i as int].0@, self.0@[i as int].1@));
                }
                return true;
            }
            proof {
                assert forall|k: int| 0 <= k < i + 1 implies !(spec_contains(
                    lower_seq((#[trigger] self@.take(i + 1)[k]).0),
                    "allow_http"@,
                ) && is_truthy(self@.take(i + 1)[k].1)) by {
                    assert(self@.take(i + 1)[k] == self@[k]);
                    if k < i {
                        assert(!spec_allow_http(self@.take(i as int)));
                        assert(self@.take(i as int)[k] == self@[k]);
                    }
                }
            }
            i = i + 1;
        }
        proof {
            assert(self@.take(self.0@.len() as int) =~= self@);
        }
        false
    }

    /// Subset of options relevant for s3 storage, keyed by canonical
    /// spelling.
    pub fn as_s3_options(&self) -> (r: Vec<(String, String)>)
        ensures
            pairs_view(r@) == provider_view(self@, |s: Seq<char>| s3_canon(s)),
    {
        let ghost canon = |s: Seq<char>| s3_canon(s);
        let mut out: Vec<(String, String)> = Vec::new();
        let mut i: usize = 0;
        while i < self.0.len()
            invariant
                0 <= i <= self.0@.len(),
                pairs_view(out@) == provider_view(self@.take(i as int), canon),
                canon == (|s: Seq<char>| s3_canon(s)),
            decreases self.0@.len() - i,
        {
            let e = &self.0[i];
            let lk = ascii_lower(e.0.as_str());
            proof {
                assert(self@.take(i + 1).drop_last() =~= self@.take(i as int));
                assert(self@.take(i + 1).last() == self@[i as int]);
                assert(self@[i as int] == (self.0@[i as int].0@, self.0@[i as int].1@));
            }
            match s3_canon_key(lk.as_str()) {
                Some(ck) => {
                    out = set_key(out, ck.as_str(), e.1.as_str());
                },
                None => {},
            }
            i = i + 1;
        }
        proof {
            assert(self@.take(self.0@.len() as int) =~= self@);
        }
        out
    }

    /// Subset of options relevant for azure storage, keyed by canonical
    /// spelling.
    pub fn as_azure_options(&self) -> (r: Vec<(String, String)>)
        ensures
            pairs_view(r@) == provider_view(self@, |s: Seq<char>| azure_canon(s)),
    {
        let ghost canon = |s: Seq<char>| azure_canon(s);
        let mut out: Vec<(String, String)> = Vec::new();
        let mut i: usize = 0;
        while i < self.0.len()
            invariant
                0 <= i <= self.0@.len(),
                pairs_view(out@) == provider_view(self@.take(i as int), canon),
                canon == (|s: Seq<char>| azure_canon(s)),
            decreases self.0@.len() - i,
        {
            let e = &self.0[i];
            let lk = ascii_lower(e.0.as_str());
            proof {
                assert(self@.take(i + 1).drop_last() =~= self@.take(i as int));
                assert(self@.take(i + 1).last() == self@[i as int]);
                assert(self@[i as int] == (self.0@[i as int].0@, self.0@[i as int].1@));
            }
            match azure_canon_key(lk.as_str()) {
                Some(ck) => {
                    out = set_key(out, ck.as_str(), e.1.as_str());
                },
                None => {},
            }
            i = i + 1;
        }
        proof {
            assert(self@.take(self.0@.len() as int) =~= self@);
        }
        out
    }

    /// Subset of options relevant for gcs storage, keyed by canonical
    /// spelling.
    pub fn as_gcs_options(&self) -> (r: Vec<(String, String)>)
        ensures
            pairs_view(r@) == provider_view(self@, |s: Seq<char>| gcs_canon(s)),
    {
        let ghost canon = |s: Seq<char>| gcs_canon(s);
        let mut out: Vec<(String, String)> = Vec::new();
        let mut i: usize = 0;
        while i < self.0.len()
            invariant
                0 <= i <= self.0@.len(),
                pairs_view(out@) == provider_view(self@.take(i as int), canon),
                canon == (|s: Seq<char>| gcs_canon(s)),
            decreases self.0@.len() - i,
        {
            let e = &self.0[i];
            let lk = ascii_lower(e.0.as_str());
            proof {
                assert(self@.take(i + 1).drop_last() =~= self@.take(i as int));
                assert(self@.take(i + 1).last() == self@[i as int]);
                assert(self@[i as int] == (self.0@[i as int].0@, self.0@[i as int].1@));
            }
            match gcs_canon_key(lk.as_str()) {
                Some(ck) => {
                    out = set_key(out, ck.as_str(), e.1.as_str());
                },
                None => {},
            }
            i = i + 1;
        }
        proof {
            assert(self@.take(self.0@.len() as int) =~= self@);
        }
        out
    }
}

} // verus!
