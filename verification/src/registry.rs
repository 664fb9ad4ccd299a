//! The key registry: a mapping from key id to verification key, built from
//! a raw key set whole or not at all.

use vstd::pervasive::VecAdditionalExecFns;
use vstd::prelude::*;

use crate::errors::JwkError;
use crate::errors::JwkErrorModel;
use crate::keys::Jwk;
use crate::keys::KeyModel;
use crate::keys::RawKey;
use crate::keys::RawKeyModel;
use crate::keys::raw_key_views;
use crate::keys::transform_spec;

verus! {

/// The view of stored entries: each entry's key id characters and the
/// material of its key.
pub open spec fn entry_views(s: Seq<(String, Jwk)>) -> Seq<(Seq<char>, KeyModel)> {
    s.map_values(|p: (String, Jwk)| (p.0@, p.1@))
}

/// No key id occurs twice.
pub open spec fn distinct_key_ids(s: Seq<(Seq<char>, KeyModel)>) -> bool {
    forall|i: int, j: int|
        0 <= i < j < s.len() ==> (#[trigger] s[i]).0 != (#[trigger] s[j]).0
}

/// The mapping that a sequence of (key id, key) pairs denotes; a later
/// entry with the same key id wins.
pub open spec fn entries_map(s: Seq<(Seq<char>, KeyModel)>) -> Map<Seq<char>, KeyModel>
    decreases s.len(),
{
    if s.len() == 0 {
        Map::empty()
    } else {
        entries_map(s.drop_last()).insert(s.last().0, s.last().1)
    }
}

/// A key id is in the mapping exactly when some entry holds it.
proof fn lemma_entries_map_domain(s: Seq<(Seq<char>, KeyModel)>, k: Seq<char>)
    ensures
        entries_map(s).dom().contains(k) <==> exists|i: int|
            0 <= i < s.len() && (#[trigger] s[i]).0 == k,
    decreases s.len(),
{
    if s.len() > 0 {
        let pre = s.drop_last();
        lemma_entries_map_domain(pre, k);
        assert(forall|i: int| 0 <= i < pre.len() ==> pre[i] == s[i]);
        if entries_map(s).dom().contains(k) {
            if s.last().0 == k {
                assert(s[s.len() - 1].0 == k);
            } else {
                let i = choose|i: int| 0 <= i < pre.len() && (#[trigger] pre[i]).0 == k;
                assert(s[i].0 == k);
            }
        }
        if exists|i: int| 0 <= i < s.len() && (#[trigger] s[i]).0 == k {
            let i = choose|i: int| 0 <= i < s.len() && (#[trigger] s[i]).0 == k;
            if i < s.len() - 1 {
                assert(pre[i].0 == k);
            }
        }
    }
}

/// With distinct key ids, the mapping sends each stored key id to that
/// entry's key.
proof fn lemma_entries_map_at(s: Seq<(Seq<char>, KeyModel)>, i: int)
    requires
        distinct_key_ids(s),
        0 <= i < s.len(),
    ensures
        entries_map(s).dom().contains(s[i].0),
        entries_map(s)[s[i].0] == s[i].1,
    decreases s.len(),
{
    let pre = s.drop_last();
    assert(forall|j: int| 0 <= j < pre.len() ==> pre[j] == s[j]);
    if i < s.len() - 1 {
        assert(distinct_key_ids(pre));
        lemma_entries_map_at(pre, i);
        assert(s.last().0 != s[i].0);
    }
}

/// With distinct key ids, the mapping holds exactly as many keys as there
/// are entries.
proof fn lemma_entries_map_len(s: Seq<(Seq<char>, KeyModel)>)
    requires
        distinct_key_ids(s),
    ensures
        entries_map(s).dom().finite(),
        entries_map(s).dom().len() == s.len(),
    decreases s.len(),
{
    if s.len() == 0 {
        assert(entries_map(s).dom() =~= Set::<Seq<char>>::empty());
    } else {
        let pre = s.drop_last();
        assert(forall|j: int| 0 <= j < pre.len() ==> pre[j] == s[j]);
        assert(distinct_key_ids(pre));
        lemma_entries_map_len(pre);
        lemma_entries_map_domain(pre, s.last().0);
        assert(!entries_map(pre).dom().contains(s.last().0));
        assert(entries_map(s).dom() =~= entries_map(pre).dom().insert(s.last().0));
    }
}

/// Replacing the entry that holds a key id denotes the same mapping as
/// inserting that key id afresh.
proof fn lemma_entries_map_update(s: Seq<(Seq<char>, KeyModel)>, i: int, p: (Seq<char>, KeyModel))
    requires
        distinct_key_ids(s),
        0 <= i < s.len(),
        s[i].0 == p.0,
    ensures
        entries_map(s.update(i, p)) == entries_map(s).insert(p.0, p.1),
    decreases s.len(),
{
    let t = s.update(i, p);
    let pre = s.drop_last();
    assert(forall|j: int| 0 <= j < pre.len() ==> pre[j] == s[j]);
    if i == s.len() - 1 {
        assert(t.drop_last() =~= pre);
        assert(t.last() == p);
        assert(entries_map(pre).insert(s.last().0, s.last().1).insert(p.0, p.1)
            =~= entries_map(pre).insert(p.0, p.1));
    } else {
        assert(distinct_key_ids(pre));
        lemma_entries_map_update(pre, i, p);
        assert(t.drop_last() =~= pre.update(i, p));
        assert(t.last() == s.last());
        assert(s.last().0 != p.0);
        assert(entries_map(pre).insert(p.0, p.1).insert(s.last().0, s.last().1)
            =~= entries_map(pre).insert(s.last().0, s.last().1).insert(p.0, p.1));
    }
}

/// Building the registry from raw keys in document order: the first failing
/// key aborts the whole build with its error; on success the mapping holds
/// every key under its id, a later duplicate id overriding an earlier one.
pub open spec fn registry_spec(raws: Seq<RawKeyModel>) -> Result<
    Map<Seq<char>, KeyModel>,
    JwkErrorModel,
>
    decreases raws.len(),
{
    if raws.len() == 0 {
        Ok(Map::empty())
    } else {
        match registry_spec(raws.drop_last()) {
            Ok(m) => match transform_spec(raws.last()) {
                Ok(p) => Ok(m.insert(p.0, p.1)),
                Err(e) => Err(e),
            },
            Err(e) => Err(e),
        }
    }
}

/// An error in a prefix of the document is the error of the whole build.
proof fn lemma_registry_prefix_error(raws: Seq<RawKeyModel>, k: int)
    requires
        0 <= k <= raws.len(),
        registry_spec(raws.take(k)) is Err,
    ensures
        registry_spec(raws) == registry_spec(raws.take(k)),
    decreases raws.len() - k,
{
    if k == raws.len() {
        assert(raws.take(k) =~= raws);
    } else {
        assert(raws.take(k + 1).drop_last() =~= raws.take(k));
        lemma_registry_prefix_error(raws, k + 1);
    }
}

/// A document whose keys all decode builds successfully.
proof fn lemma_registry_all_ok(raws: Seq<RawKeyModel>)
    requires
        forall|i: int| 0 <= i < raws.len() ==> (#[trigger] transform_spec(raws[i])) is Ok,
    ensures
        registry_spec(raws) is Ok,
    decreases raws.len(),
{
    if raws.len() > 0 {
        let pre = raws.drop_last();
        assert(forall|i: int| 0 <= i < pre.len() ==> pre[i] == raws[i]);
        lemma_registry_all_ok(pre);
        assert(transform_spec(raws[raws.len() - 1]) is Ok);
    }
}

/// The first failing key decides the build's error: when every key before
/// position `i` decodes, the build fails with exactly the error of key `i`.
proof fn lemma_registry_first_error(raws: Seq<RawKeyModel>, i: int)
    requires
        0 <= i < raws.len(),
        registry_spec(raws.take(i)) is Ok,
        transform_spec(raws[i]) is Err,
    ensures
        registry_spec(raws) == Err::<Map<Seq<char>, KeyModel>, JwkErrorModel>(
            transform_spec(raws[i])->Err_0,
        ),
{
    let front = raws.take(i);
    assert(raws.take(i + 1).drop_last() =~= front);
    assert(raws.take(i + 1).last() == raws[i]);
    assert(registry_spec(raws.take(i + 1)) == Err::<Map<Seq<char>, KeyModel>, JwkErrorModel>(
        transform_spec(raws[i])->Err_0,
    ));
    lemma_registry_prefix_error(raws, i + 1);
}

/// A container of verification keys, addressable by key id. It can be used
/// to check any token that names a known key through the `kid` attribute of
/// its header.
pub struct Jwks {
    entries: Vec<(String, Jwk)>,
}

impl Jwks {
    /// Key ids are stored at most once.
    #[verifier::type_invariant]
    spec fn wf(&self) -> bool {
        distinct_key_ids(entry_views(self.entries@))
    }
}

impl View for Jwks {
    type V = Map<Seq<char>, KeyModel>;

    closed spec fn view(&self) -> Map<Seq<char>, KeyModel> {
        entries_map(entry_views(self.entries@))
    }
}

/// Store a key under its id, replacing the key an earlier entry with the
/// same id holds.
fn insert_entry(entries: &mut Vec<(String, Jwk)>, kid: String, jwk: Jwk)
    requires
        distinct_key_ids(entry_views(old(entries)@)),
    ensures
        distinct_key_ids(entry_views(final(entries)@)),
        entries_map(entry_views(final(entries)@)) == entries_map(
            entry_views(old(entries)@),
        ).insert(kid@, jwk@),
{
    let n = entries.len();
    let mut i: usize = 0;
    while i < n
        invariant
            n == entries@.len(),
            i <= n,
            entries@ == old(entries)@,
            distinct_key_ids(entry_views(entries@)),
            forall|j: int| 0 <= j < i ==> (#[trigger] entry_views(entries@)[j]).0 != kid@,
        decreases n - i,
    {
        if entries[i].0 == kid {
            let ghost s = entry_views(entries@);
            let ghost p = (kid@, jwk@);
            entries.set(i, (kid, jwk));
            proof {
                assert(entry_views(entries@) =~= s.update(i as int, p));
                lemma_entries_map_update(s, i as int, p);
                assert(forall|a: int, b: int|
                    0 <= a < b < s.update(i as int, p).len() ==> (#[trigger] s.update(
                        i as int,
                        p,
                    )[a]).0 != (#[trigger] s.update(i as int, p)[b]).0);
            }
            return;
        }
        i += 1;
    }
    let ghost s = entry_views(entries@);
    entries.push((kid, jwk));
    proof {
        assert(entry_views(entries@) =~= s.push((kid@, jwk@)));
        assert(s.push((kid@, jwk@)).drop_last() =~= s);
        assert(forall|a: int, b: int|
            0 <= a < b < s.push((kid@, jwk@)).len() ==> (#[trigger] s.push((kid@, jwk@))[a]).0
                != (#[trigger] s.push((kid@, jwk@))[b]).0);
    }
}

impl Jwks {
    /// Build the registry from raw keys in document order, all or nothing:
    /// the result is exactly what [`registry_spec`] says of the raw keys.
    pub fn from_raw_keys(raw_keys: &Vec<RawKey>) -> (r: Result<Jwks, JwkError>)
        ensures
            match r {
                Ok(jwks) => registry_spec(raw_key_views(raw_keys@)) == Ok::<_, JwkErrorModel>(
                    jwks@,
                ),
                Err(e) => registry_spec(raw_key_views(raw_keys@)) == Err::<
                    Map<Seq<char>, KeyModel>,
                    _,
                >(e@),
            },
    {
        let ghost raws = raw_key_views(raw_keys@);
        let mut entries: Vec<(String, Jwk)> = Vec::new();
        let n = raw_keys.len();
        let mut idx: usize = 0;
        proof {
            assert(entry_views(entries@) =~= Seq::<(Seq<char>, KeyModel)>::empty());
            assert(raws.take(0) =~= Seq::<RawKeyModel>::empty());
        }
        while idx < n
            invariant
                n == raw_keys@.len(),
                idx <= n,
                raws == raw_key_views(raw_keys@),
                distinct_key_ids(entry_views(entries@)),
                registry_spec(raws.take(idx as int)) == Ok::<_, JwkErrorModel>(
                    entries_map(entry_views(entries@)),
                ),
            decreases n - idx,
        {
            match Jwk::decode(&raw_keys[idx]) {
                Ok(pair) => {
                    let ghost before = entries_map(entry_views(entries@));
                    let (kid, jwk) = pair;
                    let ghost kid_view = kid@;
                    let ghost jwk_view = jwk@;
                    insert_entry(&mut entries, kid, jwk);
                    proof {
                        assert(raws.take(idx + 1).drop_last() =~= raws.take(idx as int));
                        assert(raws.take(idx + 1).last() == raws[idx as int]);
                        assert(transform_spec(raws[idx as int]) == Ok::<_, JwkErrorModel>(
                            (kid_view, jwk_view),
                        ));
                        assert(registry_spec(raws.take(idx + 1)) == Ok::<_, JwkErrorModel>(
                            before.insert(kid_view, jwk_view),
                        ));
                    }
                },
                Err(e) => {
                    proof {
                        lemma_registry_first_error(raws, idx as int);
                    }
                    return Err(e);
                },
            }
            idx += 1;
        }
        proof {
            assert(raws.take(n as int) =~= raws);
        }
        Ok(Jwks { entries })
    }

    /// Look a verification key up by its key id.
    pub fn get(&self, kid: &String) -> (r: Option<&Jwk>)
        ensures
            match r {
                Some(jwk) => self@.dom().contains(kid@) && jwk@ == self@[kid@],
                None => !self@.dom().contains(kid@),
            },
    {
        proof {
            use_type_invariant(&*self);
        }
        let n = self.entries.len();
        let mut i: usize = 0;
        while i < n
            invariant
                self.wf(),
                n == self.entries@.len(),
                i <= n,
                forall|j: int| 0 <= j < i ==> (#[trigger] entry_views(self.entries@)[j]).0
                    != kid@,
            decreases n - i,
        {
            if self.entries[i].0 == *kid {
                proof {
                    lemma_entries_map_at(entry_views(self.entries@), i as int);
                }
                return Some(&self.entries[i].1);
            }
            i += 1;
        }
        proof {
            lemma_entries_map_domain(entry_views(self.entries@), kid@);
        }
        None
    }

    /// How many keys the registry holds.
    pub fn len(&self) -> (n: usize)
        ensures
            n == self@.dom().len(),
    {
        proof {
            use_type_invariant(&*self);
            lemma_entries_map_len(entry_views(self.entries@));
        }
        self.entries.len()
    }
}

impl Clone for Jwks {
    /// A clone denotes the same registry mapping.
    fn clone(&self) -> (r: Self)
        ensures
            r@ == self@,
    {
        proof {
            use_type_invariant(&*self);
        }
        let n = self.entries.len();
        let mut entries: Vec<(String, Jwk)> = Vec::new();
        let mut i: usize = 0;
        while i < n
            invariant
                n == self.entries@.len(),
                i <= n,
                entries@.len() == i,
                forall|j: int|
                    0 <= j < i ==> (#[trigger] entry_views(entries@)[j]) == entry_views(
                        self.entries@,
                    )[j],
            decreases n - i,
        {
            let kid = self.entries[i].0.clone();
            let jwk = self.entries[i].1.clone();
            let ghost kid_view = kid@;
            let ghost jwk_view = jwk@;
            let ghost before_entries = entries@;
            entries.push((kid, jwk));
            proof {
                assert(forall|j: int|
                    0 <= j < before_entries.len() ==> entries@[j] == before_entries[j]);
                assert(forall|j: int|
                    0 <= j < i ==> (#[trigger] entry_views(entries@)[j]) == entry_views(
                        before_entries,
                    )[j]);
                assert(entry_views(entries@)[i as int] == (kid_view, jwk_view));
                assert(entry_views(self.entries@)[i as int] == (kid_view, jwk_view));
            }
            i += 1;
        }
        proof {
            assert(entry_views(entries@) =~= entry_views(self.entries@));
        }
        Jwks { entries }
    }
}

/// Completeness: over a document whose keys all decode and carry pairwise
/// distinct key ids, the build succeeds, and the registry holds exactly one
/// entry per key of the document, addressable by that key's id and holding
/// that key's material.
pub proof fn lemma_registry_completeness(raws: Seq<RawKeyModel>)
    requires
        forall|i: int| 0 <= i < raws.len() ==> (#[trigger] transform_spec(raws[i])) is Ok,
        forall|i: int, j: int|
            0 <= i < j < raws.len() ==> (#[trigger] transform_spec(raws[i]))->Ok_0.0 != (
            #[trigger] transform_spec(raws[j]))->Ok_0.0,
    ensures
        registry_spec(raws) is Ok,
        registry_spec(raws)->Ok_0.dom().finite(),
        registry_spec(raws)->Ok_0.dom().len() == raws.len(),
        forall|i: int|
            0 <= i < raws.len() ==> registry_spec(raws)->Ok_0.dom().contains(
                (#[trigger] transform_spec(raws[i]))->Ok_0.0,
            ) && registry_spec(raws)->Ok_0[transform_spec(raws[i])->Ok_0.0] == transform_spec(
                raws[i],
            )->Ok_0.1,
        forall|k: Seq<char>|
            #[trigger] registry_spec(raws)->Ok_0.dom().contains(k) ==> exists|i: int|
                0 <= i < raws.len() && (#[trigger] transform_spec(raws[i]))->Ok_0.0 == k,
    decreases raws.len(),
{
    if raws.len() == 0 {
        assert(registry_spec(raws)->Ok_0.dom() =~= Set::<Seq<char>>::empty());
    } else {
        let pre = raws.drop_last();
        assert(forall|i: int| 0 <= i < pre.len() ==> pre[i] == raws[i]);
        lemma_registry_completeness(pre);
        let m0 = registry_spec(pre)->Ok_0;
        let p = transform_spec(raws.last())->Ok_0;
        assert(transform_spec(raws[raws.len() - 1]) is Ok);
        if m0.dom().contains(p.0) {
            let i = choose|i: int|
                0 <= i < pre.len() && (#[trigger] transform_spec(pre[i]))->Ok_0.0 == p.0;
            assert(transform_spec(raws[i])->Ok_0.0 == transform_spec(
                raws[raws.len() - 1],
            )->Ok_0.0);
            assert(false);
        }
        let m = registry_spec(raws)->Ok_0;
        assert(m == m0.insert(p.0, p.1));
        assert(m.dom() =~= m0.dom().insert(p.0));
        assert(forall|i: int|
            0 <= i < pre.len() ==> (#[trigger] transform_spec(raws[i]))->Ok_0.0 != p.0);
        assert(forall|k: Seq<char>| #[trigger] m.dom().contains(k) ==> exists|i: int|
            0 <= i < raws.len() && (#[trigger] transform_spec(raws[i]))->Ok_0.0 == k) by {
            assert forall|k: Seq<char>| #[trigger] m.dom().contains(k) implies exists|i: int|
                0 <= i < raws.len() && (#[trigger] transform_spec(raws[i]))->Ok_0.0 == k by {
                if k == p.0 {
                    assert(transform_spec(raws[raws.len() - 1])->Ok_0.0 == k);
                } else {
                    let i = choose|i: int|
                        0 <= i < pre.len() && (#[trigger] transform_spec(pre[i]))->Ok_0.0 == k;
                    assert(transform_spec(raws[i])->Ok_0.0 == k);
                }
            }
        }
    }
}

/// A raw key without `kid` always makes the build fail; when every key
/// before it decodes, the failure is `MissingKeyId` itself.
pub proof fn lemma_missing_kid_fails(raws: Seq<RawKeyModel>, i: int)
    requires
        0 <= i < raws.len(),
        raws[i].kid is None,
    ensures
        registry_spec(raws) is Err,
        (forall|j: int| 0 <= j < i ==> (#[trigger] transform_spec(raws[j])) is Ok)
            ==> registry_spec(raws) == Err::<Map<Seq<char>, KeyModel>, JwkErrorModel>(
            JwkErrorModel::MissingKeyId,
        ),
{
    lemma_registry_some_error(raws, i);
    if forall|j: int| 0 <= j < i ==> (#[trigger] transform_spec(raws[j])) is Ok {
        let front = raws.take(i);
        assert(forall|j: int| 0 <= j < front.len() ==> front[j] == raws[j]);
        lemma_registry_all_ok(front);
        lemma_registry_first_error(raws, i);
    }
}

/// A key that fails to decode anywhere in the document makes the whole
/// build fail: no partial registry exists.
proof fn lemma_registry_some_error(raws: Seq<RawKeyModel>, i: int)
    requires
        0 <= i < raws.len(),
        transform_spec(raws[i]) is Err,
    ensures
        registry_spec(raws) is Err,
    decreases raws.len(),
{
    if raws.len() > 0 {
        let pre = raws.drop_last();
        assert(forall|j: int| 0 <= j < pre.len() ==> pre[j] == raws[j]);
        if i < raws.len() - 1 {
            lemma_registry_some_error(pre, i);
        }
    }
}

/// Attribution: when the first key that fails has a `kid`, the build's
/// error is a decoding error carrying exactly that `kid`; keys before it
/// play no part in the error, and keys after it are never reached.
pub proof fn lemma_decoding_error_attribution(raws: Seq<RawKeyModel>, i: int)
    requires
        0 <= i < raws.len(),
        forall|j: int| 0 <= j < i ==> (#[trigger] transform_spec(raws[j])) is Ok,
        raws[i].kid is Some,
        transform_spec(raws[i]) is Err,
    ensures
        registry_spec(raws) == Err::<Map<Seq<char>, KeyModel>, JwkErrorModel>(
            JwkErrorModel::DecodingError { key_id: raws[i].kid->Some_0 },
        ),
{
    assert(transform_spec(raws[i])->Err_0 == JwkErrorModel::DecodingError {
        key_id: raws[i].kid->Some_0,
    });
    let front = raws.take(i);
    assert(forall|j: int| 0 <= j < front.len() ==> front[j] == raws[j]);
    lemma_registry_all_ok(front);
    lemma_registry_first_error(raws, i);
}

} // verus!
