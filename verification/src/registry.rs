//! Model registry: the built-in catalog merged with a cached update and configured extras,
//! and lookups in it.

use vstd::prelude::*;

use crate::config::{
    default_models_dir, installed_choice, installed_model_path, legacy_model_path, AppConfig, ExtraModelEntry,
};
use crate::error::{msg_error, AppError};
use crate::path::{exists_answer, path_join, spec_path_join};
use crate::schema::{opt_str, strs};
use crate::text::{
    seq_contains, contains, spec_to_lowercase, split_whitespace, str_eq, to_lowercase, to_owned_string,
    push_char, ws_tokens,
};

verus! {

/// Refuse registry files with a version greater than this (format bump).
pub const MAX_SUPPORTED_REGISTRY_VERSION: u32 = 1;

/// The model catalog.
#[derive(Debug, Clone)]
pub struct ModelRegistry {
    pub registry_version: u32,
    pub models: Vec<RegistryModel>,
}

/// One downloadable model.
#[derive(Debug, Clone)]
pub struct RegistryModel {
    pub id: String,
    pub display_name: String,
    pub profile: String,
    pub hf_repo: String,
    pub filename: String,
    pub sha256: Option<String>,
    pub ram_hint_gb: Option<u32>,
}

/// Position of the first model with `id`, if any.
pub open spec fn index_of_id(models: Seq<RegistryModel>, id: Seq<char>) -> Option<int>
    decreases models.len(),
{
    if models.len() == 0 {
        None
    } else {
        match index_of_id(models.drop_last(), id) {
            Some(i) => Some(i),
            None => if models.last().id@ == id {
                Some(models.len() - 1)
            } else {
                None
            },
        }
    }
}

/// `m` replaces the first model with the same id, or is appended when there is none.
pub open spec fn upsert(models: Seq<RegistryModel>, m: RegistryModel) -> Seq<RegistryModel> {
    match index_of_id(models, m.id@) {
        Some(i) => models.update(i, m),
        None => models.push(m),
    }
}

/// Every model of `updates`, in order, upserted into `models`.
pub open spec fn upsert_all(models: Seq<RegistryModel>, updates: Seq<RegistryModel>) -> Seq<
    RegistryModel,
>
    decreases updates.len(),
{
    if updates.len() == 0 {
        models
    } else {
        upsert(upsert_all(models, updates.drop_last()), updates.last())
    }
}

proof fn lemma_index_of_id_props(models: Seq<RegistryModel>, id: Seq<char>)
    ensures
        match index_of_id(models, id) {
            Some(i) => 0 <= i < models.len() && models[i].id@ == id && forall|j: int|
                0 <= j < i ==> #[trigger] models[j].id@ != id,
            None => forall|j: int| 0 <= j < models.len() ==> #[trigger] models[j].id@ != id,
        },
    decreases models.len(),
{
    if models.len() > 0 {
        lemma_index_of_id_props(models.drop_last(), id);
        assert forall|j: int| 0 <= j < models.len() - 1 implies #[trigger] models[j].id@
            == models.drop_last()[j].id@ by {}
    }
}

proof fn lemma_index_of_id_char(models: Seq<RegistryModel>, id: Seq<char>, k: int)
    requires
        0 <= k <= models.len(),
        forall|j: int| 0 <= j < k ==> #[trigger] models[j].id@ != id,
        k == models.len() || models[k].id@ == id,
    ensures
        index_of_id(models, id) == if k == models.len() {
            None::<int>
        } else {
            Some(k)
        },
{
    lemma_index_of_id_props(models, id);
}

/// The last model of `updates` with id `id`, if any.
pub open spec fn last_with_id(updates: Seq<RegistryModel>, id: Seq<char>) -> Option<RegistryModel>
    decreases updates.len(),
{
    if updates.len() == 0 {
        None
    } else if updates.last().id@ == id {
        Some(updates.last())
    } else {
        last_with_id(updates.drop_last(), id)
    }
}

/// The model a lookup by `id` finds in `models`, if any.
pub open spec fn lookup(models: Seq<RegistryModel>, id: Seq<char>) -> Option<RegistryModel> {
    match index_of_id(models, id) {
        Some(i) => Some(models[i]),
        None => None,
    }
}

/// After an upsert, looking up the upserted id finds the new model, and looking up any other id
/// finds what it found before.
pub proof fn lemma_upsert_lookup(models: Seq<RegistryModel>, m: RegistryModel, id: Seq<char>)
    ensures
        lookup(upsert(models, m), id) == if id == m.id@ {
            Some(m)
        } else {
            lookup(models, id)
        },
{
    let u = upsert(models, m);
    lemma_index_of_id_props(models, id);
    lemma_index_of_id_props(models, m.id@);
    match index_of_id(models, m.id@) {
        Some(k) => {
            assert forall|j: int| 0 <= j < u.len() implies #[trigger] u[j].id@ == models[j].id@ by {}
            match index_of_id(models, id) {
                Some(t) => {
                    assert forall|j: int| 0 <= j < t implies #[trigger] u[j].id@ != id by {
                        assert(u[j].id@ == models[j].id@);
                    }
                    lemma_index_of_id_char(u, id, t);
                    if id != m.id@ {
                        assert(t != k);
                    } else {
                        assert(t == k);
                    }
                },
                None => {
                    assert forall|j: int| 0 <= j < u.len() implies #[trigger] u[j].id@ != id by {
                        assert(u[j].id@ == models[j].id@);
                    }
                    lemma_index_of_id_char(u, id, u.len() as int);
                },
            }
        },
        None => {
            match index_of_id(models, id) {
                Some(t) => {
                    assert forall|j: int| 0 <= j < t implies #[trigger] u[j].id@ != id by {
                        assert(u[j] == models[j]);
                    }
                    assert(u[t] == models[t]);
                    lemma_index_of_id_char(u, id, t);
                },
                None => {
                    assert forall|j: int| 0 <= j < models.len() implies #[trigger] u[j].id@ != id by {
                        assert(u[j] == models[j]);
                    }
                    if id == m.id@ {
                        lemma_index_of_id_char(u, id, models.len() as int);
                    } else {
                        assert forall|j: int| 0 <= j < u.len() implies #[trigger] u[j].id@ != id by {
                            if j < models.len() {
                                assert(u[j] == models[j]);
                            }
                        }
                        lemma_index_of_id_char(u, id, u.len() as int);
                    }
                },
            }
        },
    }
}

/// Merging by id: after upserting a list of models, a lookup by id finds the last model of the
/// list with that id, or, when the list has none, what it found before.
pub proof fn lemma_upsert_all_lookup(models: Seq<RegistryModel>, updates: Seq<RegistryModel>, id: Seq<char>)
    ensures
        lookup(upsert_all(models, updates), id) == match last_with_id(updates, id) {
            Some(m) => Some(m),
            None => lookup(models, id),
        },
    decreases updates.len(),
{
    if updates.len() > 0 {
        lemma_upsert_all_lookup(models, updates.drop_last(), id);
        lemma_upsert_lookup(upsert_all(models, updates.drop_last()), updates.last(), id);
    }
}

impl ModelRegistry {
    /// Position of the first model with the given id.
    pub fn position_of(&self, id: &str) -> (r: Option<usize>)
        ensures
            match index_of_id(self.models@, id@) {
                Some(i) => r == Some(i as usize),
                None => r is None,
            },
            r matches Some(i) ==> (i as int) < self.models@.len() && self.models@[i as int].id@
                == id@,
    {
        let mut i: usize = 0;
        while i < self.models.len()
            invariant
                i <= self.models@.len(),
                forall|j: int| 0 <= j < i ==> #[trigger] self.models@[j].id@ != id@,
            decreases self.models@.len() - i,
        {
            if str_eq(self.models[i].id.as_str(), id) {
                proof {
                    lemma_index_of_id_char(self.models@, id@, i as int);
                }
                return Some(i);
            }
            i = i + 1;
        }
        proof {
            lemma_index_of_id_char(self.models@, id@, i as int);
        }
        None
    }

    /// The first model with the given id.
    pub fn find(&self, id: &str) -> (r: Option<&RegistryModel>)
        ensures
            match index_of_id(self.models@, id@) {
                Some(i) => r is Some && *(r->0) == self.models@[i],
                None => r is None,
            },
    {
        proof {
            lemma_index_of_id_props(self.models@, id@);
        }
        match self.position_of(id) {
            Some(i) => Some(&self.models[i]),
            None => None,
        }
    }

    /// Upsert one model by id.
    fn upsert_model(&mut self, m: RegistryModel)
        ensures
            final(self).models@ == upsert(old(self).models@, m),
            final(self).registry_version == old(self).registry_version,
    {
        proof {
            lemma_index_of_id_props(self.models@, m.id@);
        }
        match self.position_of(m.id.as_str()) {
            Some(i) => {
                self.models.set(i, m);
            },
            None => {
                self.models.push(m);
            },
        }
    }

    /// Upsert every model of `updates`, in order.
    fn upsert_models(&mut self, updates: Vec<RegistryModel>)
        ensures
            final(self).models@ == upsert_all(old(self).models@, updates@),
            final(self).registry_version == old(self).registry_version,
    {
        let mut i: usize = 0;
        while i < updates.len()
            invariant
                i <= updates@.len(),
                self.models@ == upsert_all(old(self).models@, updates@.subrange(0, i as int)),
                self.registry_version == old(self).registry_version,
            decreases updates@.len() - i,
        {
            let m = updates[i].clone_model();
            self.upsert_model(m);
            proof {
                let next = updates@.subrange(0, i + 1);
                assert(next.drop_last() =~= updates@.subrange(0, i as int));
            }
            i = i + 1;
        }
        assert(updates@.subrange(0, i as int) =~= updates@);
    }

    /// Merge a cached registry into the built-in one. A cached file with a newer major version
    /// than supported is an error; a newer supported version replaces the built-in catalog; the
    /// same version overrides models by id and appends new ones; an older one is ignored.
    pub fn load_merged(base: ModelRegistry, cached: Option<ModelRegistry>) -> (r: Result<
        ModelRegistry,
        AppError,
    >)
        ensures
            match cached {
                None => r matches Ok(m) && m.registry_version == base.registry_version
                    && m.models@ == base.models@,
                Some(c) => if c.registry_version > MAX_SUPPORTED_REGISTRY_VERSION {
                    r == Err::<ModelRegistry, AppError>(
                        AppError::RegistryVersion { got: c.registry_version },
                    )
                } else if c.registry_version > base.registry_version {
                    r matches Ok(m) && m.registry_version == c.registry_version && m.models@
                        == c.models@
                } else if c.registry_version == base.registry_version {
                    r matches Ok(m) && m.registry_version == base.registry_version && m.models@
                        == upsert_all(base.models@, c.models@)
                } else {
                    r matches Ok(m) && m.registry_version == base.registry_version && m.models@
                        == base.models@
                },
            },
    {
        let mut base = base;
        match cached {
            None => Ok(base),
            Some(c) => {
                if c.registry_version > MAX_SUPPORTED_REGISTRY_VERSION {
                    return Err(AppError::RegistryVersion { got: c.registry_version });
                }
                if c.registry_version > base.registry_version {
                    return Ok(c);
                } else if c.registry_version == base.registry_version {
                    base.upsert_models(c.models);
                }
                Ok(base)
            },
        }
    }

    /// The registry with configured extra entries upserted by id.
    pub fn with_extra_models(self, extras: &Vec<ExtraModelEntry>) -> (r: ModelRegistry)
        ensures
            r.registry_version == self.registry_version,
            r.models@ == upsert_all(self.models@, extras@.map_values(|e: ExtraModelEntry| extra_to_model(e))),
    {
        let mut reg = self;
        let mut v: Vec<RegistryModel> = Vec::new();
        let mut i: usize = 0;
        while i < extras.len()
            invariant
                i <= extras@.len(),
                v@ == extras@.subrange(0, i as int).map_values(|e: ExtraModelEntry| extra_to_model(e)),
            decreases extras@.len() - i,
        {
            v.push(RegistryModel::from_extra(&extras[i]));
            i = i + 1;
            assert(v@ =~= extras@.subrange(0, i as int).map_values(|e: ExtraModelEntry| extra_to_model(e)));
        }
        assert(extras@.subrange(0, i as int) =~= extras@);
        reg.upsert_models(v);
        reg
    }

    /// Models matching every word of `query` (case-insensitively) in their id, display name or
    /// profile; all models when the query has no words.
    pub fn search(&self, query: &str) -> (r: Vec<&RegistryModel>)
        ensures
            r@.map_values(|m: &RegistryModel| *m) == search_spec(self.models@, query@),
            forall|i: int, t: Seq<char>|
                0 <= i < r@.len() && #[trigger] is_query_word(query@, t) ==> seq_contains(
                    spec_to_lowercase(
                        (#[trigger] r@[i]).id@ + seq![' '] + r@[i].display_name@ + seq![' ']
                            + r@[i].profile@,
                    ),
                    t,
                ),
    {
        let words = split_whitespace(query);
        let mut tokens: Vec<String> = Vec::new();
        let mut i: usize = 0;
        while i < words.len()
            invariant
                i <= words@.len(),
                strs(tokens@) == nonempty_only(strs(words@.subrange(0, i as int)).map_values(|w: Seq<char>| spec_to_lowercase(w))),
            decreases words@.len() - i,
        {
            let t = to_lowercase(words[i].as_str());
            proof {
                let pre = strs(words@.subrange(0, i + 1)).map_values(|w: Seq<char>| spec_to_lowercase(w));
                assert(pre.drop_last() =~= strs(words@.subrange(0, i as int)).map_values(|w: Seq<char>| spec_to_lowercase(w)));
                assert(pre.last() == t@);
            }
            if t.unicode_len() > 0 {
                tokens.push(t);
            }
            i = i + 1;
            assert(strs(tokens@) =~= nonempty_only(strs(words@.subrange(0, i as int)).map_values(|w: Seq<char>| spec_to_lowercase(w))));
        }
        assert(words@.subrange(0, i as int) =~= words@);
        let mut out: Vec<&RegistryModel> = Vec::new();
        let mut k: usize = 0;
        while k < self.models.len()
            invariant
                k <= self.models@.len(),
                strs(tokens@) == query_tokens(query@),
                out@.map_values(|m: &RegistryModel| *m) == select_matching(
                    self.models@.subrange(0, k as int),
                    query_tokens(query@),
                ),
            decreases self.models@.len() - k,
        {
            let m = &self.models[k];
            let hit = if tokens.len() == 0 {
                true
            } else {
                model_matches(m, &tokens)
            };
            proof {
                let pre = self.models@.subrange(0, k + 1);
                assert(pre.drop_last() =~= self.models@.subrange(0, k as int));
                assert(pre.last() == self.models@[k as int]);
            }
            if hit {
                out.push(m);
            }
            k = k + 1;
            assert(out@.map_values(|m: &RegistryModel| *m) =~= select_matching(
                self.models@.subrange(0, k as int),
                query_tokens(query@),
            ));
        }
        assert(self.models@.subrange(0, k as int) =~= self.models@);
        proof {
            let res = out@.map_values(|m: &RegistryModel| *m);
            assert forall|i: int, t: Seq<char>|
                0 <= i < out@.len() && #[trigger] is_query_word(query@, t) implies seq_contains(
                    spec_to_lowercase(
                        (#[trigger] out@[i]).id@ + seq![' '] + out@[i].display_name@ + seq![' ']
                            + out@[i].profile@,
                    ),
                    t,
                ) by {
                assert(res[i] == *out@[i]);
                assert(res.contains(res[i]));
                lemma_search_needs_every_word(self.models@, query@, res[i]);
            }
        }
        out
    }
}

impl RegistryModel {
    fn clone_model(&self) -> (r: RegistryModel)
        ensures
            r == *self,
    {
        RegistryModel {
            id: self.id.clone(),
            display_name: self.display_name.clone(),
            profile: self.profile.clone(),
            hf_repo: self.hf_repo.clone(),
            filename: self.filename.clone(),
            sha256: match &self.sha256 {
                Some(s) => Some(s.clone()),
                None => None,
            },
            ram_hint_gb: self.ram_hint_gb,
        }
    }

    /// A catalog entry from a configured extra model.
    pub fn from_extra(e: &ExtraModelEntry) -> (r: RegistryModel)
        ensures
            r == extra_to_model(*e),
    {
        RegistryModel {
            id: e.id.clone(),
            display_name: e.display_name.clone(),
            profile: e.profile.clone(),
            hf_repo: e.hf_repo.clone(),
            filename: e.filename.clone(),
            sha256: match &e.sha256 {
                Some(s) => Some(s.clone()),
                None => None,
            },
            ram_hint_gb: e.ram_hint_gb,
        }
    }
}

/// The catalog entry for a configured extra model (same fields).
pub open spec fn extra_to_model(e: ExtraModelEntry) -> RegistryModel {
    RegistryModel {
        id: e.id,
        display_name: e.display_name,
        profile: e.profile,
        hf_repo: e.hf_repo,
        filename: e.filename,
        sha256: e.sha256,
        ram_hint_gb: e.ram_hint_gb,
    }
}

/// The non-empty strings of `v`, in order.
pub open spec fn nonempty_only(v: Seq<Seq<char>>) -> Seq<Seq<char>>
    decreases v.len(),
{
    if v.len() == 0 {
        seq![]
    } else {
        nonempty_only(v.drop_last()) + if v.last().len() > 0 {
            seq![v.last()]
        } else {
            seq![]
        }
    }
}

/// The lowercased non-empty words of a search query.
pub open spec fn query_tokens(q: Seq<char>) -> Seq<Seq<char>> {
    nonempty_only(ws_tokens(q).map_values(|w: Seq<char>| spec_to_lowercase(w)))
}

/// The text a query is matched against: lowercased `id display_name profile`.
pub open spec fn haystack(m: RegistryModel) -> Seq<char> {
    spec_to_lowercase(m.id@ + seq![' '] + m.display_name@ + seq![' '] + m.profile@)
}

/// A model matches when every token occurs in its haystack (or there are no tokens).
pub open spec fn matches_all(m: RegistryModel, tokens: Seq<Seq<char>>) -> bool {
    forall|i: int| 0 <= i < tokens.len() ==> seq_contains(haystack(m), #[trigger] tokens[i])
}

/// The matching models of `models`, in order.
pub open spec fn select_matching(models: Seq<RegistryModel>, tokens: Seq<Seq<char>>) -> Seq<
    RegistryModel,
>
    decreases models.len(),
{
    if models.len() == 0 {
        seq![]
    } else {
        select_matching(models.drop_last(), tokens) + if matches_all(models.last(), tokens) {
            seq![models.last()]
        } else {
            seq![]
        }
    }
}

/// The result of a catalog search.
pub open spec fn search_spec(models: Seq<RegistryModel>, q: Seq<char>) -> Seq<RegistryModel> {
    select_matching(models, query_tokens(q))
}

/// A word of `q` the search looks for: a white-space separated word, lowercased, not empty.
pub open spec fn is_query_word(q: Seq<char>, t: Seq<char>) -> bool {
    exists|w: Seq<char>| #[trigger] ws_tokens(q).contains(w) && spec_to_lowercase(w) == t && t.len() > 0
}

proof fn lemma_nonempty_only_contains(v: Seq<Seq<char>>, x: Seq<char>)
    ensures
        nonempty_only(v).contains(x) <==> v.contains(x) && x.len() > 0,
    decreases v.len(),
{
    if v.len() > 0 {
        lemma_nonempty_only_contains(v.drop_last(), x);
        let tail: Seq<Seq<char>> = if v.last().len() > 0 { seq![v.last()] } else { seq![] };
        let whole = nonempty_only(v.drop_last()) + tail;
        assert(nonempty_only(v) == whole);
        if whole.contains(x) {
            let i = choose|i: int| 0 <= i < whole.len() && whole[i] == x;
            if i < nonempty_only(v.drop_last()).len() {
                assert(nonempty_only(v.drop_last())[i] == x);
                let j = choose|j: int| 0 <= j < v.drop_last().len() && v.drop_last()[j] == x;
                assert(v[j] == x);
            } else {
                assert(v[v.len() - 1] == x);
            }
        }
        if v.contains(x) && x.len() > 0 {
            let j = choose|j: int| 0 <= j < v.len() && v[j] == x;
            if j < v.len() - 1 {
                assert(v.drop_last()[j] == x);
                let i = choose|i: int| 0 <= i < nonempty_only(v.drop_last()).len() && nonempty_only(v.drop_last())[i] == x;
                assert(whole[i] == x);
            } else {
                assert(whole[whole.len() - 1] == x);
            }
        }
    }
}

/// The tokens a query is matched with are exactly its query words.
proof fn lemma_query_tokens_are_words(q: Seq<char>, t: Seq<char>)
    ensures
        query_tokens(q).contains(t) <==> is_query_word(q, t),
{
    let f = |w: Seq<char>| spec_to_lowercase(w);
    let words = ws_tokens(q);
    let lowered = words.map_values(f);
    lemma_nonempty_only_contains(lowered, t);
    if lowered.contains(t) && t.len() > 0 {
        let i = choose|i: int| 0 <= i < lowered.len() && lowered[i] == t;
        assert(words.contains(words[i]));
        assert(spec_to_lowercase(words[i]) == t);
    }
    if is_query_word(q, t) {
        let w = choose|w: Seq<char>| #[trigger] words.contains(w) && spec_to_lowercase(w) == t && t.len() > 0;
        let i = choose|i: int| 0 <= i < words.len() && words[i] == w;
        assert(lowered[i] == t);
    }
}

proof fn lemma_select_matching_contains(models: Seq<RegistryModel>, tokens: Seq<Seq<char>>, m: RegistryModel)
    ensures
        select_matching(models, tokens).contains(m) <==> models.contains(m) && matches_all(m, tokens),
    decreases models.len(),
{
    if models.len() > 0 {
        let init = models.drop_last();
        lemma_select_matching_contains(init, tokens, m);
        let tail: Seq<RegistryModel> = if matches_all(models.last(), tokens) { seq![models.last()] } else { seq![] };
        let whole = select_matching(init, tokens) + tail;
        assert(select_matching(models, tokens) == whole);
        if whole.contains(m) {
            let i = choose|i: int| 0 <= i < whole.len() && whole[i] == m;
            if i < select_matching(init, tokens).len() {
                assert(select_matching(init, tokens)[i] == m);
                let j = choose|j: int| 0 <= j < init.len() && init[j] == m;
                assert(models[j] == m);
            } else {
                assert(models[models.len() - 1] == m);
            }
        }
        if models.contains(m) && matches_all(m, tokens) {
            let j = choose|j: int| 0 <= j < models.len() && models[j] == m;
            if j < models.len() - 1 {
                assert(init[j] == m);
                let i = choose|i: int| 0 <= i < select_matching(init, tokens).len() && select_matching(init, tokens)[i] == m;
                assert(whole[i] == m);
            } else {
                assert(whole[whole.len() - 1] == m);
            }
        }
    }
}

/// A catalog search returns a model exactly when the model is in the catalog and every word of
/// the query, lowercased (empty words aside), occurs in its lowercased
/// `id display_name profile` text: a model missing any one word is never returned, and a query
/// without words returns every model.
pub proof fn lemma_search_needs_every_word(models: Seq<RegistryModel>, q: Seq<char>, m: RegistryModel)
    ensures
        search_spec(models, q).contains(m) <==> models.contains(m) && forall|t: Seq<char>|
            #[trigger] is_query_word(q, t) ==> seq_contains(
                spec_to_lowercase(m.id@ + seq![' '] + m.display_name@ + seq![' '] + m.profile@),
                t,
            ),
{
    let tokens = query_tokens(q);
    let text = spec_to_lowercase(m.id@ + seq![' '] + m.display_name@ + seq![' '] + m.profile@);
    lemma_select_matching_contains(models, tokens, m);
    if matches_all(m, tokens) {
        assert forall|t: Seq<char>| #[trigger] is_query_word(q, t) implies seq_contains(text, t) by {
            lemma_query_tokens_are_words(q, t);
            let i = choose|i: int| 0 <= i < tokens.len() && tokens[i] == t;
            assert(seq_contains(haystack(m), tokens[i]));
        }
    }
    if forall|t: Seq<char>| #[trigger] is_query_word(q, t) ==> seq_contains(text, t) {
        assert forall|i: int| 0 <= i < tokens.len() implies seq_contains(haystack(m), #[trigger] tokens[i]) by {
            assert(tokens.contains(tokens[i]));
            lemma_query_tokens_are_words(q, tokens[i]);
        }
    }
}

fn model_matches(m: &RegistryModel, tokens: &Vec<String>) -> (r: bool)
    ensures
        r == matches_all(*m, strs(tokens@)),
{
    let mut text = m.id.clone();
    push_char(&mut text, ' ');
    text.append(m.display_name.as_str());
    push_char(&mut text, ' ');
    text.append(m.profile.as_str());
    assert(text@ =~= m.id@ + seq![' '] + m.display_name@ + seq![' '] + m.profile@);
    let hay = to_lowercase(text.as_str());
    let mut i: usize = 0;
    while i < tokens.len()
        invariant
            i <= tokens@.len(),
            hay@ == haystack(*m),
            forall|j: int| 0 <= j < i ==> seq_contains(haystack(*m), #[trigger] strs(tokens@)[j]),
        decreases tokens@.len() - i,
    {
        if !contains(hay.as_str(), tokens[i].as_str()) {
            assert(strs(tokens@)[i as int] == tokens@[i as int]@);
            return false;
        }
        i = i + 1;
    }
    true
}

/// Rank of a model profile when listing: fast, balanced, capable, then others.
pub fn profile_rank(profile: &str) -> (r: u8)
    ensures
        r == if profile@ == "fast"@ {
            0u8
        } else if profile@ == "balanced"@ {
            1u8
        } else if profile@ == "capable"@ {
            2u8
        } else {
            3u8
        },
{
    if str_eq(profile, "fast") {
        0
    } else if str_eq(profile, "balanced") {
        1
    } else if str_eq(profile, "capable") {
        2
    } else {
        3
    }
}

/// Where a model would be used from, given where its file is installed (`installed`, none when
/// it is not): an unknown id is an error; an installed file is the answer; otherwise the error
/// says how to pull it and where it would go.
pub open spec fn model_path_spec(
    id: Seq<char>,
    models: Seq<RegistryModel>,
    data_dir: Seq<char>,
    installed: Option<Seq<char>>,
) -> Result<Seq<char>, Seq<char>> {
    match index_of_id(models, id) {
        None => Err("unknown model id "@ + id),
        Some(i) => match installed {
            Some(p) => Ok(p),
            None => Err(
                "model file not found; run: clai models pull "@ + id + " (installs to "@
                    + spec_path_join(spec_path_join(data_dir, "models"@), models[i].filename@)
                    + ")"@,
            ),
        },
    }
}

/// The result matches [`model_path_spec`]: the path, or a `Msg` error with that text.
pub open spec fn model_path_result(r: Result<String, AppError>, want: Result<Seq<char>, Seq<char>>) -> bool {
    match want {
        Ok(p) => r matches Ok(q) && q@ == p,
        Err(m) => r is Err && msg_error(r->Err_0, m),
    }
}

/// What [`default_model_path_for`] returns once it knows where the model's file is installed.
pub fn model_path_outcome(id: &str, registry: &ModelRegistry, data_dir: &str, installed: Option<String>) -> (r: Result<String, AppError>)
    ensures
        model_path_result(r, model_path_spec(id@, registry.models@, data_dir@, opt_str(installed))),
{
    let m = match registry.find(id) {
        Some(m) => m,
        None => {
            let mut s = to_owned_string("unknown model id ");
            s.append(id);
            return Err(AppError::Msg(s));
        },
    };
    match installed {
        Some(p) => Ok(p),
        None => {
            let dir = default_models_dir(data_dir);
            let target = path_join(dir.as_str(), m.filename.as_str());
            let mut s = to_owned_string("model file not found; run: clai models pull ");
            s.append(id);
            s.append(" (installs to ");
            s.append(target.as_str());
            s.append(")");
            Err(AppError::Msg(s))
        },
    }
}

/// Where a downloaded model is, or why it cannot be used: an unknown id, or a model file that is
/// not installed. `data_dir` and `legacy_dir` locate the models directory; which files exist is
/// read from the filesystem ([`installed_model_path`]), and what is returned for each answer is
/// [`model_path_outcome`].
pub fn default_model_path_for(id: &str, registry: &ModelRegistry, data_dir: &str, legacy_dir: Option<&str>) -> (r: Result<String, AppError>)
    ensures
        index_of_id(registry.models@, id@) is None ==> r is Err && msg_error(
            r->Err_0,
            "unknown model id "@ + id@,
        ),
        index_of_id(registry.models@, id@) matches Some(i) ==> exists|preferred_exists: bool, legacy_exists: bool|
            model_path_result(
                r,
                model_path_spec(
                    id@,
                    registry.models@,
                    data_dir@,
                    #[trigger] installed_choice(
                        spec_path_join(spec_path_join(data_dir@, "models"@), registry.models@[i].filename@),
                        legacy_model_path(legacy_dir, registry.models@[i].filename@),
                        preferred_exists,
                        legacy_exists,
                    ),
                ),
            ) && exists_answer(
                spec_path_join(spec_path_join(data_dir@, "models"@), registry.models@[i].filename@),
                preferred_exists,
            ) && (!preferred_exists && legacy_dir is Some ==> exists_answer(
                spec_path_join(spec_path_join(legacy_dir->0@, "models"@), registry.models@[i].filename@),
                legacy_exists,
            )),
{
    let installed = match registry.find(id) {
        Some(m) => installed_model_path(data_dir, legacy_dir, m.filename.as_str()),
        None => None,
    };
    model_path_outcome(id, registry, data_dir, installed)
}

/// Message when no model path, override or default model id is configured.
pub const NO_DEFAULT_MODEL_MSG: &'static str = "no default model; run clai init or --model";

/// The GGUF file to use: the `--model` override, else the configured `model_path`, else the
/// installed file of the default model id (see [`default_model_path_for`]).
pub fn resolve_model_path(
    cfg: &AppConfig,
    override_path: Option<String>,
    registry: &ModelRegistry,
    data_dir: &str,
    legacy_dir: Option<&str>,
) -> (r: Result<String, AppError>)
    ensures
        override_path is Some ==> r == Ok::<String, AppError>(override_path->0),
        override_path is None && cfg.model_path is Some ==> r == Ok::<String, AppError>(
            cfg.model_path->0,
        ),
        override_path is None && cfg.model_path is None && cfg.default_model_id is None ==> r is Err
            && msg_error(r->Err_0, NO_DEFAULT_MODEL_MSG@),
        override_path is None && cfg.model_path is None && cfg.default_model_id is Some ==> ({
            let id = cfg.default_model_id->0@;
            &&& index_of_id(registry.models@, id) is None ==> r is Err && msg_error(
                r->Err_0,
                "unknown model id "@ + id,
            )
            &&& index_of_id(registry.models@, id) matches Some(i) ==> exists|
                preferred_exists: bool,
                legacy_exists: bool,
            |
                model_path_result(
                    r,
                    model_path_spec(
                        id,
                        registry.models@,
                        data_dir@,
                        #[trigger] installed_choice(
                            spec_path_join(spec_path_join(data_dir@, "models"@), registry.models@[i].filename@),
                            legacy_model_path(legacy_dir, registry.models@[i].filename@),
                            preferred_exists,
                            legacy_exists,
                        ),
                    ),
                ) && exists_answer(
                    spec_path_join(spec_path_join(data_dir@, "models"@), registry.models@[i].filename@),
                    preferred_exists,
                ) && (!preferred_exists && legacy_dir is Some ==> exists_answer(
                    spec_path_join(spec_path_join(legacy_dir->0@, "models"@), registry.models@[i].filename@),
                    legacy_exists,
                ))
        }),
{
    if let Some(p) = override_path {
        return Ok(p);
    }
    if let Some(p) = &cfg.model_path {
        return Ok(p.clone());
    }
    match &cfg.default_model_id {
        Some(id) => default_model_path_for(id.as_str(), registry, data_dir, legacy_dir),
        None => Err(AppError::Msg(to_owned_string(NO_DEFAULT_MODEL_MSG))),
    }
}

/// `a` comes before or with `b` in character (code point) order.
pub open spec fn chars_le(a: Seq<char>, b: Seq<char>) -> bool
    decreases a.len(),
{
    if a.len() == 0 {
        true
    } else if b.len() == 0 {
        false
    } else if a[0] != b[0] {
        a[0] < b[0]
    } else {
        chars_le(a.drop_first(), b.drop_first())
    }
}

fn chars_le_exec(a: &str, b: &str) -> (r: bool)
    ensures
        r == chars_le(a@, b@),
{
    let n = a.unicode_len();
    let m = b.unicode_len();
    let mut i: usize = 0;
    assert(a@.subrange(0, n as int) =~= a@);
    assert(b@.subrange(0, m as int) =~= b@);
    while i < n && i < m && a.get_char(i) == b.get_char(i)
        invariant
            n == a@.len(),
            m == b@.len(),
            i <= n,
            i <= m,
            forall|j: int| 0 <= j < i ==> a@[j] == b@[j],
            chars_le(a@, b@) == chars_le(a@.subrange(i as int, n as int), b@.subrange(i as int, m as int)),
        decreases n - i,
    {
        proof {
            let sa = a@.subrange(i as int, n as int);
            let sb = b@.subrange(i as int, m as int);
            assert(sa.drop_first() =~= a@.subrange(i + 1, n as int));
            assert(sb.drop_first() =~= b@.subrange(i + 1, m as int));
        }
        i = i + 1;
    }
    if i == n {
        return true;
    }
    if i == m {
        return false;
    }
    a.get_char(i) < b.get_char(i)
}

/// Picker order of two catalog entries: by profile rank, then by lowercased display name.
pub open spec fn picker_le(a: RegistryModel, b: RegistryModel) -> bool {
    let ra = profile_rank_spec(a.profile@);
    let rb = profile_rank_spec(b.profile@);
    ra < rb || (ra == rb && chars_le(spec_to_lowercase(a.display_name@), spec_to_lowercase(b.display_name@)))
}

/// Rank of a profile name: fast, balanced, capable, then others.
pub open spec fn profile_rank_spec(profile: Seq<char>) -> int {
    if profile == "fast"@ {
        0
    } else if profile == "balanced"@ {
        1
    } else if profile == "capable"@ {
        2
    } else {
        3
    }
}

/// Position where `x` goes into `sorted`: before the first entry that `x` precedes strictly.
pub open spec fn insert_position(sorted: Seq<RegistryModel>, x: RegistryModel) -> int
    decreases sorted.len(),
{
    if sorted.len() == 0 {
        0
    } else if !picker_le(sorted[0], x) {
        0
    } else {
        1 + insert_position(sorted.drop_first(), x)
    }
}

/// Stable insertion sort in picker order: each entry, in input order, goes after every entry
/// already placed that comes before or with it.
pub open spec fn picker_sorted(models: Seq<RegistryModel>) -> Seq<RegistryModel>
    decreases models.len(),
{
    if models.len() == 0 {
        seq![]
    } else {
        let s = picker_sorted(models.drop_last());
        s.insert(insert_position(s, models.last()), models.last())
    }
}

proof fn lemma_insert_position(sorted: Seq<RegistryModel>, x: RegistryModel, k: int)
    requires
        0 <= k <= sorted.len(),
        forall|j: int| 0 <= j < k ==> picker_le(#[trigger] sorted[j], x),
        k == sorted.len() || !picker_le(sorted[k], x),
    ensures
        insert_position(sorted, x) == k,
    decreases sorted.len(),
{
    if sorted.len() > 0 && k > 0 {
        let t = sorted.drop_first();
        assert forall|j: int| 0 <= j < k - 1 implies picker_le(#[trigger] t[j], x) by {
            assert(t[j] == sorted[j + 1]);
        }
        if k < sorted.len() {
            assert(t[k - 1] == sorted[k]);
        }
        lemma_insert_position(t, x, k - 1);
    }
}

/// The catalog in picker order (`clai init`): by profile rank, then by lowercased display name,
/// keeping the catalog order among equals.
pub fn models_in_picker_order(models: &Vec<RegistryModel>) -> (r: Vec<RegistryModel>)
    ensures
        r@ == picker_sorted(models@),
{
    let mut out: Vec<RegistryModel> = Vec::new();
    let mut keys: Vec<(u8, String)> = Vec::new();
    let mut k: usize = 0;
    while k < models.len()
        invariant
            k <= models@.len(),
            out@ == picker_sorted(models@.take(k as int)),
            keys@.len() == out@.len(),
            forall|j: int|
                0 <= j < out@.len() ==> (#[trigger] keys@[j]).0 as int == profile_rank_spec(out@[j].profile@)
                    && keys@[j].1@ == spec_to_lowercase(out@[j].display_name@),
        decreases models@.len() - k,
    {
        let x = models[k].clone_model();
        let xr = profile_rank(x.profile.as_str());
        let xn = to_lowercase(x.display_name.as_str());
        let mut i: usize = 0;
        while i < out.len() && (keys[i].0 < xr || (keys[i].0 == xr && chars_le_exec(keys[i].1.as_str(), xn.as_str())))
            invariant
                i <= out@.len(),
                keys@.len() == out@.len(),
                xr as int == profile_rank_spec(x.profile@),
                xn@ == spec_to_lowercase(x.display_name@),
                forall|j: int|
                    0 <= j < out@.len() ==> (#[trigger] keys@[j]).0 as int == profile_rank_spec(out@[j].profile@)
                        && keys@[j].1@ == spec_to_lowercase(out@[j].display_name@),
                forall|j: int| 0 <= j < i ==> picker_le(#[trigger] out@[j], x),
            decreases out@.len() - i,
        {
            i = i + 1;
        }
        proof {
            lemma_insert_position(out@, x, i as int);
            let t = models@.take(k as int + 1);
            assert(t.drop_last() =~= models@.take(k as int));
            assert(t.last() == models@[k as int]);
        }
        let ghost before = out@;
        let ghost before_keys = keys@;
        out.insert(i, x);
        keys.insert(i, (xr, xn));
        proof {
            assert forall|j: int|
                0 <= j < out@.len() implies (#[trigger] keys@[j]).0 as int == profile_rank_spec(out@[j].profile@)
                    && keys@[j].1@ == spec_to_lowercase(out@[j].display_name@) by {
                if j < i {
                    assert(out@[j] == before[j] && keys@[j] == before_keys[j]);
                } else if j > i {
                    assert(out@[j] == before[j - 1] && keys@[j] == before_keys[j - 1]);
                }
            }
        }
        k = k + 1;
    }
    assert(models@.take(models@.len() as int) =~= models@);
    out
}

/// One line of `clai models list`.
#[derive(Debug, Clone)]
pub struct CatalogRow {
    pub id: String,
    pub display_name: String,
    pub profile: String,
    /// Where the model file is installed, or `(not downloaded)`.
    pub location: String,
    /// The configured default model.
    pub is_default: bool,
    pub hf_repo: String,
    pub filename: String,
    pub ram_hint_gb: Option<u32>,
}

/// Location text of a model that is not installed.
pub const NOT_DOWNLOADED: &'static str = "(not downloaded)";

/// The listing row of a model, given where its file is installed and the default model id.
pub open spec fn catalog_row_matches(row: CatalogRow, m: RegistryModel, default_id: Option<Seq<char>>, installed: Option<Seq<char>>) -> bool {
    &&& row.id == m.id
    &&& row.display_name == m.display_name
    &&& row.profile == m.profile
    &&& row.hf_repo == m.hf_repo
    &&& row.filename == m.filename
    &&& row.ram_hint_gb == m.ram_hint_gb
    &&& row.is_default == (default_id == Some(m.id@))
    &&& row.location@ == match installed {
        Some(p) => p,
        None => NOT_DOWNLOADED@,
    }
}

/// The rows of `clai models list`, one per catalog model in order; `installed` gives, for each
/// model, where its file is installed (as found on disk), if anywhere.
pub fn catalog_rows(registry: &ModelRegistry, default_id: Option<&str>, installed: &Vec<Option<String>>) -> (r: Vec<CatalogRow>)
    requires
        installed@.len() == registry.models@.len(),
    ensures
        r@.len() == registry.models@.len(),
        forall|i: int|
            0 <= i < r@.len() ==> catalog_row_matches(
                #[trigger] r@[i],
                registry.models@[i],
                match default_id {
                    Some(d) => Some(d@),
                    None => None,
                },
                opt_str(installed@[i]),
            ),
{
    let ghost dv = match default_id {
        Some(d) => Some(d@),
        None => None,
    };
    let mut out: Vec<CatalogRow> = Vec::new();
    let mut i: usize = 0;
    while i < registry.models.len()
        invariant
            i <= registry.models@.len(),
            installed@.len() == registry.models@.len(),
            out@.len() == i,
            dv == match default_id {
                Some(d) => Some(d@),
                None => None::<Seq<char>>,
            },
            forall|j: int|
                0 <= j < i ==> catalog_row_matches(#[trigger] out@[j], registry.models@[j], dv, opt_str(installed@[j])),
        decreases registry.models@.len() - i,
    {
        let m = &registry.models[i];
        let is_default = match default_id {
            Some(d) => str_eq(d, m.id.as_str()),
            None => false,
        };
        let location = match &installed[i] {
            Some(p) => p.clone(),
            None => to_owned_string(NOT_DOWNLOADED),
        };
        let row = CatalogRow {
            id: m.id.clone(),
            display_name: m.display_name.clone(),
            profile: m.profile.clone(),
            location,
            is_default,
            hf_repo: m.hf_repo.clone(),
            filename: m.filename.clone(),
            ram_hint_gb: m.ram_hint_gb,
        };
        out.push(row);
        i = i + 1;
    }
    out
}

} // verus!
