//! The provider registry — the daemon's policy state.
//!
//! A `ProviderEntry` carries a provider's name, endpoint, default model and a
//! typed secret-source reference. The registry turns a prompt into a
//! fully-resolved `ProviderCall`; the secret value never lives in the
//! registry, only the source reference.

use vstd::prelude::*;
use crate::contract::{Prompt, PromptView, ChatMessage, ChatMessageView};
use crate::provider::{
    ProviderApiKey, ProviderAuthorization, AuthorizationView, ProviderCall, ProviderCallView,
    ProviderMessage, ProviderMessageView, messages_view,
};

verus! {

/// The name of an environment variable that holds a key.
#[derive(Debug, PartialEq, Eq)]
pub struct EnvironmentVariable(String);

/// A gopass entry path that holds a key.
#[derive(Debug, PartialEq, Eq)]
pub struct GopassPath(String);

/// A file path that holds a key.
#[derive(Debug, PartialEq, Eq)]
pub struct SecretFilePath(String);

impl View for EnvironmentVariable {
    type V = Seq<char>;

    closed spec fn view(&self) -> Seq<char> {
        self.0@
    }
}

impl View for GopassPath {
    type V = Seq<char>;

    closed spec fn view(&self) -> Seq<char> {
        self.0@
    }
}

impl View for SecretFilePath {
    type V = Seq<char>;

    closed spec fn view(&self) -> Seq<char> {
        self.0@
    }
}

impl EnvironmentVariable {
    pub fn new(value: String) -> (v: Self)
        ensures
            v@ == value@,
    {
        EnvironmentVariable(value)
    }

    pub fn as_str(&self) -> (s: &str)
        ensures
            s@ == self@,
    {
        self.0.as_str()
    }
}

impl GopassPath {
    pub fn new(value: String) -> (v: Self)
        ensures
            v@ == value@,
    {
        GopassPath(value)
    }

    pub fn as_str(&self) -> (s: &str)
        ensures
            s@ == self@,
    {
        self.0.as_str()
    }
}

impl SecretFilePath {
    pub fn new(value: String) -> (v: Self)
        ensures
            v@ == value@,
    {
        SecretFilePath(value)
    }

    pub fn as_str(&self) -> (s: &str)
        ensures
            s@ == self@,
    {
        self.0.as_str()
    }

    /// The file's path, as the text a filesystem call opens.
    pub fn as_path(&self) -> (p: &str)
        ensures
            p@ == self@,
    {
        self.0.as_str()
    }
}

/// A typed reference to where a provider API key lives. This is
/// configuration, not a secret value; `NoSecret` sends no Authorization header.
#[derive(Debug, PartialEq, Eq)]
pub enum SecretSource {
    Environment(EnvironmentVariable),
    Gopass(GopassPath),
    File(SecretFilePath),
    NoSecret,
}

pub enum SecretSourceView {
    Environment(Seq<char>),
    Gopass(Seq<char>),
    File(Seq<char>),
    NoSecret,
}

impl View for SecretSource {
    type V = SecretSourceView;

    open spec fn view(&self) -> SecretSourceView {
        match self {
            SecretSource::Environment(v) => SecretSourceView::Environment(v@),
            SecretSource::Gopass(p) => SecretSourceView::Gopass(p@),
            SecretSource::File(p) => SecretSourceView::File(p@),
            SecretSource::NoSecret => SecretSourceView::NoSecret,
        }
    }
}

impl Clone for SecretSource {
    fn clone(&self) -> (r: Self)
        ensures
            r@ == self@,
    {
        match self {
            SecretSource::Environment(v) => SecretSource::environment(v.0.clone()),
            SecretSource::Gopass(p) => SecretSource::gopass(p.0.clone()),
            SecretSource::File(p) => SecretSource::file(p.0.clone()),
            SecretSource::NoSecret => SecretSource::NoSecret,
        }
    }
}

/// The text that names a secret source in error messages.
pub open spec fn source_description(s: SecretSourceView) -> Seq<char> {
    match s {
        SecretSourceView::Environment(v) => "environment:"@ + v,
        SecretSourceView::Gopass(p) => "gopass:"@ + p,
        SecretSourceView::File(p) => "file:"@ + p,
        SecretSourceView::NoSecret => "no-secret"@,
    }
}

/// Whether a source names a secret that must be looked up.
pub open spec fn needs_secret(s: SecretSourceView) -> bool {
    !(s is NoSecret)
}

impl SecretSource {
    pub fn environment(variable: String) -> (s: Self)
        ensures
            s@ == SecretSourceView::Environment(variable@),
    {
        SecretSource::Environment(EnvironmentVariable::new(variable))
    }

    pub fn gopass(path: String) -> (s: Self)
        ensures
            s@ == SecretSourceView::Gopass(path@),
    {
        SecretSource::Gopass(GopassPath::new(path))
    }

    pub fn file(path: String) -> (s: Self)
        ensures
            s@ == SecretSourceView::File(path@),
    {
        SecretSource::File(SecretFilePath::new(path))
    }

    pub fn no_secret() -> (s: Self)
        ensures
            s@ == SecretSourceView::NoSecret,
    {
        SecretSource::NoSecret
    }

    /// The text that names this source in error messages.
    pub fn description(&self) -> (d: String)
        ensures
            d@ == source_description(self@),
    {
        match self {
            SecretSource::Environment(v) => {
                let mut d = "environment:".to_owned();
                d.append(v.as_str());
                d
            },
            SecretSource::Gopass(p) => {
                let mut d = "gopass:".to_owned();
                d.append(p.as_str());
                d
            },
            SecretSource::File(p) => {
                let mut d = "file:".to_owned();
                d.append(p.as_str());
                d
            },
            SecretSource::NoSecret => "no-secret".to_owned(),
        }
    }

    /// Whether a lookup is needed before a call can be made.
    pub fn requires_secret_resolution(&self) -> (b: bool)
        ensures
            b == needs_secret(self@),
    {
        match self {
            SecretSource::NoSecret => false,
            _ => true,
        }
    }
}

/// One configured provider: the OpenAI-compatible facts plus the secret source.
#[derive(Debug, PartialEq, Eq)]
pub struct ProviderEntry {
    name: String,
    endpoint: String,
    default_model: String,
    secret_source: SecretSource,
}

pub struct ProviderEntryView {
    pub name: Seq<char>,
    pub endpoint: Seq<char>,
    pub default_model: Seq<char>,
    pub secret_source: SecretSourceView,
}

impl View for ProviderEntry {
    type V = ProviderEntryView;

    closed spec fn view(&self) -> ProviderEntryView {
        ProviderEntryView {
            name: self.name@,
            endpoint: self.endpoint@,
            default_model: self.default_model@,
            secret_source: self.secret_source@,
        }
    }
}

impl Clone for ProviderEntry {
    fn clone(&self) -> (r: Self)
        ensures
            r@ == self@,
    {
        ProviderEntry {
            name: self.name.clone(),
            endpoint: self.endpoint.clone(),
            default_model: self.default_model.clone(),
            secret_source: self.secret_source.clone(),
        }
    }
}

impl ProviderEntry {
    pub fn new(name: String, endpoint: String, default_model: String, secret_source: SecretSource) -> (e: Self)
        ensures
            e@ == (ProviderEntryView {
                name: name@,
                endpoint: endpoint@,
                default_model: default_model@,
                secret_source: secret_source@,
            }),
    {
        ProviderEntry { name, endpoint, default_model, secret_source }
    }

    pub fn name(&self) -> (s: &str)
        ensures
            s@ == self@.name,
    {
        self.name.as_str()
    }

    pub fn endpoint(&self) -> (s: &str)
        ensures
            s@ == self@.endpoint,
    {
        self.endpoint.as_str()
    }

    pub fn default_model(&self) -> (s: &str)
        ensures
            s@ == self@.default_model,
    {
        self.default_model.as_str()
    }

    pub fn secret_source(&self) -> (s: &SecretSource)
        ensures
            s@ == self@.secret_source,
    {
        &self.secret_source
    }
}


/// Why a key could not be resolved from its source.
#[derive(Debug, PartialEq, Eq)]
pub enum KeyResolutionError {
    EnvironmentUnset(String),
    GopassUnavailable { path: String, detail: String },
    FileUnavailable { path: String, detail: String },
    EmptySecret(String),
}

pub enum KeyResolutionErrorView {
    EnvironmentUnset(Seq<char>),
    GopassUnavailable { path: Seq<char>, detail: Seq<char> },
    FileUnavailable { path: Seq<char>, detail: Seq<char> },
    EmptySecret(Seq<char>),
}

impl View for KeyResolutionError {
    type V = KeyResolutionErrorView;

    open spec fn view(&self) -> KeyResolutionErrorView {
        match self {
            KeyResolutionError::EnvironmentUnset(v) => KeyResolutionErrorView::EnvironmentUnset(v@),
            KeyResolutionError::GopassUnavailable { path, detail } =>
                KeyResolutionErrorView::GopassUnavailable { path: path@, detail: detail@ },
            KeyResolutionError::FileUnavailable { path, detail } =>
                KeyResolutionErrorView::FileUnavailable { path: path@, detail: detail@ },
            KeyResolutionError::EmptySecret(d) => KeyResolutionErrorView::EmptySecret(d@),
        }
    }
}

/// The human-readable text of a key resolution error.
pub open spec fn key_error_text(e: KeyResolutionErrorView) -> Seq<char> {
    match e {
        KeyResolutionErrorView::EnvironmentUnset(v) => "environment variable is unset: "@ + v,
        KeyResolutionErrorView::GopassUnavailable { path, detail } =>
            "gopass secret unavailable at "@ + path + ": "@ + detail,
        KeyResolutionErrorView::FileUnavailable { path, detail } =>
            "secret file unavailable at "@ + path + ": "@ + detail,
        KeyResolutionErrorView::EmptySecret(d) => "secret source returned an empty secret: "@ + d,
    }
}

impl KeyResolutionError {
    /// The human-readable text of this error.
    pub fn message(&self) -> (m: String)
        ensures
            m@ == key_error_text(self@),
    {
        match self {
            KeyResolutionError::EnvironmentUnset(v) => {
                let mut m = "environment variable is unset: ".to_owned();
                m.append(v.as_str());
                m
            },
            KeyResolutionError::GopassUnavailable { path, detail } => {
                let mut m = "gopass secret unavailable at ".to_owned();
                m.append(path.as_str());
                m.append(": ");
                m.append(detail.as_str());
                m
            },
            KeyResolutionError::FileUnavailable { path, detail } => {
                let mut m = "secret file unavailable at ".to_owned();
                m.append(path.as_str());
                m.append(": ");
                m.append(detail.as_str());
                m
            },
            KeyResolutionError::EmptySecret(d) => {
                let mut m = "secret source returned an empty secret: ".to_owned();
                m.append(d.as_str());
                m
            },
        }
    }
}

/// Why a `ProviderCall` could not be resolved.
#[derive(Debug, PartialEq, Eq)]
pub enum ResolveError {
    NoProviderConfigured,
    ProviderUnknown(String),
    SecretUnavailable(KeyResolutionError),
}

pub enum ResolveErrorView {
    NoProviderConfigured,
    ProviderUnknown(Seq<char>),
    SecretUnavailable(KeyResolutionErrorView),
}

impl View for ResolveError {
    type V = ResolveErrorView;

    open spec fn view(&self) -> ResolveErrorView {
        match self {
            ResolveError::NoProviderConfigured => ResolveErrorView::NoProviderConfigured,
            ResolveError::ProviderUnknown(n) => ResolveErrorView::ProviderUnknown(n@),
            ResolveError::SecretUnavailable(e) => ResolveErrorView::SecretUnavailable(e@),
        }
    }
}

/// The abstract registry: the configured entries in order and the default.
pub struct RegistryView {
    pub entries: Seq<ProviderEntryView>,
    pub default_provider: Option<Seq<char>>,
}

/// Whether an entry of this name is configured.
pub open spec fn has_name(es: Seq<ProviderEntryView>, n: Seq<char>) -> bool {
    exists|i: int| 0 <= i < es.len() && #[trigger] es[i].name == n
}

/// No two entries share a name.
pub open spec fn names_unique(es: Seq<ProviderEntryView>) -> bool {
    forall|i: int, j: int|
        0 <= i < es.len() && 0 <= j < es.len() && i != j ==> #[trigger] es[i].name != #[trigger] es[j].name
}

/// The entry of the given name.
pub open spec fn entry_named(es: Seq<ProviderEntryView>, n: Seq<char>) -> ProviderEntryView {
    es[choose|i: int| 0 <= i < es.len() && #[trigger] es[i].name == n]
}

/// The registry invariant: names are unique, and the default, when one is
/// set, names a configured entry.
pub open spec fn registry_well_formed(v: RegistryView) -> bool {
    &&& names_unique(v.entries)
    &&& (v.default_provider matches Some(d) ==> has_name(v.entries, d))
}

/// The registry after configuring `e`: a same-named entry is replaced in
/// place, otherwise `e` is appended; the first configured provider becomes the
/// default when none is set.
pub open spec fn configured(v: RegistryView, e: ProviderEntryView) -> RegistryView {
    RegistryView {
        entries: if has_name(v.entries, e.name) {
            replaced_named(v.entries, e)
        } else {
            v.entries.push(e)
        },
        default_provider: if v.default_provider is None { Some(e.name) } else { v.default_provider },
    }
}

/// The entries other than the one named `n`, in order.
pub open spec fn entries_without(es: Seq<ProviderEntryView>, n: Seq<char>) -> Seq<ProviderEntryView> {
    es.filter(other_than(n))
}

/// Holds of the entries not named `n`.
pub open spec fn other_than(n: Seq<char>) -> spec_fn(ProviderEntryView) -> bool {
    |x: ProviderEntryView| x.name != n
}

/// The entries with the one named like `e` replaced by `e`.
pub open spec fn replaced_named(es: Seq<ProviderEntryView>, e: ProviderEntryView) -> Seq<ProviderEntryView> {
    es.map_values(|x: ProviderEntryView| if x.name == e.name { e } else { x })
}

/// The registry after retiring `n`: its entry is gone, and when it was the
/// default no default is set.
pub open spec fn retired(v: RegistryView, n: Seq<char>) -> RegistryView {
    RegistryView {
        entries: entries_without(v.entries, n),
        default_provider: if v.default_provider == Some(n) { None } else { v.default_provider },
    }
}

/// The registry after asking for `n` as default: set when configured.
pub open spec fn with_default(v: RegistryView, n: Seq<char>) -> RegistryView {
    if has_name(v.entries, n) {
        RegistryView { entries: v.entries, default_provider: Some(n) }
    } else {
        v
    }
}

pub open spec fn entries_view(es: Seq<ProviderEntry>) -> Seq<ProviderEntryView> {
    es.map_values(|e: ProviderEntry| e@)
}

proof fn lemma_entry_named_at(es: Seq<ProviderEntryView>, n: Seq<char>, i: int)
    requires
        names_unique(es),
        0 <= i < es.len(),
        es[i].name == n,
    ensures
        entry_named(es, n) == es[i],
{
    let j = choose|j: int| 0 <= j < es.len() && #[trigger] es[j].name == n;
    assert(es[j].name == n);
    if j != i {
        assert(es[i].name != es[j].name);
    }
}

proof fn lemma_filter_unique(es: Seq<ProviderEntryView>, n: Seq<char>)
    requires
        names_unique(es),
    ensures
        names_unique(entries_without(es, n)),
        forall|k: int| 0 <= k < entries_without(es, n).len() ==> (#[trigger] entries_without(es, n)[k]).name != n
            && has_name(es, entries_without(es, n)[k].name),
        forall|j: int| 0 <= j < es.len() && (#[trigger] es[j]).name != n ==> has_name(entries_without(es, n), es[j].name),
        has_name(es, n) ==> entries_without(es, n).len() < es.len(),
        !has_name(es, n) ==> entries_without(es, n) == es,
    decreases es.len(),
{
    reveal(Seq::filter);
    let p = other_than(n);
    if es.len() > 0 {
        let r = es.drop_last();
        let last = es.last();
        assert(names_unique(r));
        lemma_filter_unique(r, n);
        let fr = entries_without(r, n);
        let f = entries_without(es, n);
        assert(f == if p(last) { fr.push(last) } else { fr });
        assert forall|k: int| 0 <= k < fr.len() implies #[trigger] fr[k].name != last.name by {
            assert(has_name(r, fr[k].name));
            let j = choose|j: int| 0 <= j < r.len() && #[trigger] r[j].name == fr[k].name;
            assert(es[j] == r[j]);
            assert(es[es.len() - 1] == last);
        }
        assert forall|k: int| 0 <= k < f.len() implies (#[trigger] f[k]).name != n && has_name(es, f[k].name) by {
            if k < fr.len() {
                assert(f[k] == fr[k]);
                let j = choose|j: int| 0 <= j < r.len() && #[trigger] r[j].name == fr[k].name;
                assert(es[j] == r[j]);
            } else {
                assert(f[k] == last);
                assert(es[es.len() - 1] == last);
            }
        }
        assert forall|j: int| 0 <= j < es.len() && (#[trigger] es[j]).name != n implies has_name(f, es[j].name) by {
            if j < r.len() {
                assert(r[j] == es[j]);
                let k = choose|k: int| 0 <= k < fr.len() && #[trigger] fr[k].name == r[j].name;
                assert(f[k] == fr[k]);
            } else {
                assert(es[j] == last);
                assert(f[f.len() - 1] == last);
            }
        }
        if has_name(es, n) {
            let j = choose|j: int| 0 <= j < es.len() && #[trigger] es[j].name == n;
            if j < r.len() {
                assert(r[j] == es[j]);
                assert(has_name(r, n));
            }
            r.lemma_filter_len(p);
        } else {
            assert forall|j: int| 0 <= j < r.len() implies #[trigger] r[j].name != n by {
                assert(r[j] == es[j]);
            }
            assert(!has_name(r, n));
            assert(es =~= r.push(last));
        }
    } else {
        assert(entries_without(es, n) =~= es);
    }
}

/// The set of configured providers plus the default.
#[derive(Debug)]
pub struct ProviderRegistry {
    entries: Vec<ProviderEntry>,
    default_provider: Option<String>,
}

impl View for ProviderRegistry {
    type V = RegistryView;

    closed spec fn view(&self) -> RegistryView {
        RegistryView { entries: entries_view(self.entries@), default_provider: opt_view(self.default_provider) }
    }
}

pub open spec fn opt_view(o: Option<String>) -> Option<Seq<char>> {
    match o {
        Some(s) => Some(s@),
        None => None,
    }
}

impl ProviderRegistry {
    /// The registry invariant holds.
    pub open spec fn wf(&self) -> bool {
        registry_well_formed(self@)
    }

    pub fn new() -> (r: Self)
        ensures
            r.wf(),
            r@.entries == Seq::<ProviderEntryView>::empty(),
            r@.default_provider is None,
    {
        let r = ProviderRegistry { entries: Vec::new(), default_provider: None };
        assert(entries_view(r.entries@) =~= Seq::<ProviderEntryView>::empty());
        r
    }

    /// Insert or replace a provider by name. The first provider configured
    /// becomes the default when none is set.
    pub fn configure(&mut self, entry: ProviderEntry)
        requires
            old(self).wf(),
        ensures
            final(self).wf(),
            final(self)@ == configured(old(self)@, entry@),
    {
        let ghost old_v = self@;
        let ghost e = entry@;
        if self.default_provider.is_none() {
            self.default_provider = Some(entry.name.clone());
        }
        let found = self.position(&entry.name);
        match found {
            Some(k) => {
                proof {
                    assert(old_v.entries[k as int].name == e.name);
                    assert(has_name(old_v.entries, e.name));
                }
                self.entries.set(k, entry);
                proof {
                    let want = replaced_named(old_v.entries, e);
                    assert forall|j: int| 0 <= j < want.len() implies want[j] == entries_view(self.entries@)[j] by {
                        if j != k {
                            assert(old_v.entries[j].name != old_v.entries[k as int].name);
                        }
                    }
                    assert(entries_view(self.entries@) =~= want);
                }
            },
            None => {
                proof {
                    assert(!has_name(old_v.entries, e.name));
                }
                self.entries.push(entry);
                proof {
                    assert(entries_view(self.entries@) =~= old_v.entries.push(e));
                }
            },
        }
        proof {
            let nv = self@;
            assert(nv == configured(old_v, e));
            assert(has_name(nv.entries, e.name)) by {
                match found {
                    Some(k) => { assert(nv.entries[k as int].name == e.name); },
                    None => { assert(nv.entries[old_v.entries.len() as int] == e); },
                }
            }
            if has_name(old_v.entries, e.name) {
                assert forall|a: int, b: int|
                    0 <= a < nv.entries.len() && 0 <= b < nv.entries.len() && a != b
                    implies #[trigger] nv.entries[a].name != #[trigger] nv.entries[b].name by {
                    assert(old_v.entries[a].name != old_v.entries[b].name);
                }
                if let Some(d) = old_v.default_provider {
                    let j = choose|j: int| 0 <= j < old_v.entries.len() && #[trigger] old_v.entries[j].name == d;
                    assert(nv.entries[j].name == d);
                }
            } else {
                assert forall|a: int, b: int|
                    0 <= a < nv.entries.len() && 0 <= b < nv.entries.len() && a != b
                    implies #[trigger] nv.entries[a].name != #[trigger] nv.entries[b].name by {
                    if a < old_v.entries.len() && b < old_v.entries.len() {
                        assert(old_v.entries[a].name != old_v.entries[b].name);
                    } else if a < old_v.entries.len() {
                        assert(old_v.entries[a].name != e.name);
                    } else if b < old_v.entries.len() {
                        assert(old_v.entries[b].name != e.name);
                    }
                }
                if let Some(d) = old_v.default_provider {
                    let j = choose|j: int| 0 <= j < old_v.entries.len() && #[trigger] old_v.entries[j].name == d;
                    assert(nv.entries[j].name == d);
                }
            }
        }
    }

    /// Remove a provider by name. Returns whether it was present. Clears the
    /// default when the retired provider was the default.
    pub fn retire(&mut self, name: &str) -> (removed: bool)
        requires
            old(self).wf(),
        ensures
            final(self).wf(),
            final(self)@ == retired(old(self)@, name@),
            removed == has_name(old(self)@.entries, name@),
    {
        let ghost old_v = self@;
        let ghost nm = name@;
        let name = name.to_owned();
        let before = self.entries.len();
        let mut kept: Vec<ProviderEntry> = Vec::new();
        let mut i: usize = 0;
        let ghost p = other_than(nm);
        while i < before
            invariant
                before == self.entries.len(),
                i <= before,
                name@ == nm,
                p == other_than(nm),
                entries_view(self.entries@) == old_v.entries,
                entries_view(kept@) == old_v.entries.take(i as int).filter(p),
            decreases before - i,
        {
            proof {
                assert(old_v.entries.take(i + 1) =~= old_v.entries.take(i as int).push(old_v.entries[i as int]));
                old_v.entries.take(i as int).lemma_filter_push(old_v.entries[i as int], p);
            }
            assert(old_v.entries[i as int] == self.entries@[i as int]@);
            if self.entries[i].name != name {
                let c = self.entries[i].clone();
                kept.push(c);
                proof {
                    assert(p(old_v.entries[i as int]));
                    assert(entries_view(kept@) =~= old_v.entries.take(i as int).filter(p).push(old_v.entries[i as int]));
                    assert(entries_view(kept@) == old_v.entries.take(i + 1).filter(p));
                }
            } else {
                proof {
                    assert(!p(old_v.entries[i as int]));
                    assert(entries_view(kept@) == old_v.entries.take(i + 1).filter(p));
                }
            }
            i = i + 1;
        }
        proof {
            assert(old_v.entries.take(before as int) =~= old_v.entries);
            lemma_filter_unique(old_v.entries, nm);
        }
        let removed = kept.len() != before;
        let was_default = match &self.default_provider {
            Some(d) => *d == name,
            None => false,
        };
        self.entries = kept;
        if was_default {
            self.default_provider = None;
        }
        proof {
            let nv = self@;
            assert(nv.entries == entries_without(old_v.entries, nm));
            if !was_default && old_v.default_provider is Some {
                let d = old_v.default_provider->0;
                let j = choose|j: int| 0 <= j < old_v.entries.len() && #[trigger] old_v.entries[j].name == d;
                assert(old_v.entries[j].name != nm);
                assert(has_name(nv.entries, d));
            }
        }
        removed
    }

    /// Set the default provider. Returns whether the named provider exists.
    pub fn set_default(&mut self, name: &str) -> (present: bool)
        requires
            old(self).wf(),
        ensures
            final(self).wf(),
            final(self)@ == with_default(old(self)@, name@),
            present == has_name(old(self)@.entries, name@),
    {
        let name = name.to_owned();
        match self.position(&name) {
            Some(k) => {
                proof {
                    assert(has_name(self@.entries, name@));
                }
                self.default_provider = Some(name);
                proof {
                    if let Some(d) = old(self)@.default_provider {
                        assert(has_name(self@.entries, d));
                    }
                }
                true
            },
            None => false,
        }
    }

    /// The default provider's name, when one is set.
    pub fn default_provider(&self) -> (d: Option<&str>)
        ensures
            match self@.default_provider {
                Some(n) => d is Some && d->0@ == n,
                None => d is None,
            },
    {
        match &self.default_provider {
            Some(n) => Some(n.as_str()),
            None => None,
        }
    }

    /// The entry of the given name, when configured.
    fn entry(&self, name: &String) -> (e: Option<&ProviderEntry>)
        requires
            self.wf(),
        ensures
            has_name(self@.entries, name@) ==> e is Some && e->0@ == entry_named(self@.entries, name@),
            !has_name(self@.entries, name@) ==> e is None,
    {
        match self.position(name) {
            Some(k) => {
                proof {
                    lemma_entry_named_at(self@.entries, name@, k as int);
                }
                Some(&self.entries[k])
            },
            None => None,
        }
    }

    /// The index of the entry of the given name, when configured.
    fn position(&self, name: &String) -> (r: Option<usize>)
        ensures
            match r {
                Some(k) => k < self@.entries.len() && self@.entries[k as int].name == name@,
                None => !has_name(self@.entries, name@),
            },
    {
        let n = self.entries.len();
        let mut i: usize = 0;
        while i < n
            invariant
                n == self.entries.len(),
                i <= n,
                forall|j: int| 0 <= j < i ==> (#[trigger] entries_view(self.entries@)[j]).name != name@,
            decreases n - i,
        {
            assert(entries_view(self.entries@)[i as int] == self.entries@[i as int]@);
            if self.entries[i].name == *name {
                return Some(i);
            }
            i = i + 1;
        }
        None
    }
}


/// The provider a prompt is served by: the one it names, else the default.
pub open spec fn chosen_provider(v: RegistryView, p: PromptView) -> Option<Seq<char>> {
    match p.options.provider {
        Some(n) => Some(n),
        None => v.default_provider,
    }
}

/// The model a call uses: the prompt's, else the provider's default model.
pub open spec fn chosen_model(e: ProviderEntryView, p: PromptView) -> Seq<char> {
    match p.options.model {
        Some(m) => m,
        None => e.default_model,
    }
}

/// Which configured entry serves a prompt, or why none does.
pub open spec fn plan_outcome(v: RegistryView, p: PromptView) -> Result<ProviderEntryView, ResolveErrorView> {
    match chosen_provider(v, p) {
        None => Err(ResolveErrorView::NoProviderConfigured),
        Some(n) => if has_name(v.entries, n) {
            Ok(entry_named(v.entries, n))
        } else {
            Err(ResolveErrorView::ProviderUnknown(n))
        },
    }
}

/// A transcript turn as handed to a provider.
pub open spec fn project_message(m: ChatMessageView) -> ProviderMessageView {
    ProviderMessageView { role: m.chat_role, content: m.user_text }
}

/// The call a prompt resolves to against entry `e` with authorization `auth`.
pub open spec fn call_for(p: PromptView, e: ProviderEntryView, auth: AuthorizationView) -> ProviderCallView {
    ProviderCallView {
        provider_name: e.name,
        endpoint: e.endpoint,
        model: chosen_model(e, p),
        authorization: auth,
        system: p.system,
        messages: p.chat_transcript.map_values(|m: ChatMessageView| project_message(m)),
        output_mode: p.options.output_mode,
        temperature_milli: p.options.temperature_milli,
        maximum_output_tokens: p.options.maximum_output_tokens,
        reasoning_effort: p.options.reasoning_effort,
        thinking_mode: p.options.thinking_mode,
    }
}

/// A prompt matched to its provider entry, waiting only for the secret (when
/// the entry's source needs one) before it becomes a `ProviderCall`.
pub struct CallPlan {
    entry: ProviderEntry,
}

impl View for CallPlan {
    type V = ProviderEntryView;

    closed spec fn view(&self) -> ProviderEntryView {
        self.entry@
    }
}

fn project_messages(ms: &Vec<ChatMessage>) -> (out: Vec<ProviderMessage>)
    ensures
        messages_view(out@) == ms@.map_values(|m: ChatMessage| m@).map_values(
            |m: ChatMessageView| project_message(m),
        ),
{
    let mut out: Vec<ProviderMessage> = Vec::new();
    let mut i: usize = 0;
    let ghost want = ms@.map_values(|m: ChatMessage| m@).map_values(|m: ChatMessageView| project_message(m));
    while i < ms.len()
        invariant
            i <= ms.len(),
            want == ms@.map_values(|m: ChatMessage| m@).map_values(|m: ChatMessageView| project_message(m)),
            messages_view(out@) == want.take(i as int),
        decreases ms.len() - i,
    {
        let m = ProviderMessage::new(ms[i].chat_role, ms[i].user_text.clone());
        proof {
            let mv = ms@.map_values(|m: ChatMessage| m@);
            assert(mv[i as int] == ms@[i as int]@);
            assert(want[i as int] == project_message(mv[i as int]));
            assert(m@ == want[i as int]);
        }
        let ghost before = out@;
        out.push(m);
        proof {
            assert(messages_view(out@) =~= messages_view(before).push(want[i as int]));
            assert(want.take(i + 1) =~= want.take(i as int).push(want[i as int]));
            assert(messages_view(out@) =~= want.take(i + 1));
        }
        i = i + 1;
    }
    proof {
        assert(want.take(ms.len() as int) =~= want);
    }
    out
}

fn clone_text(o: &Option<String>) -> (r: Option<String>)
    ensures
        opt_view(r) == opt_view(*o),
{
    match o {
        Some(s) => Some(s.clone()),
        None => None,
    }
}

impl CallPlan {
    /// The entry serving the prompt.
    pub fn entry(&self) -> (e: &ProviderEntry)
        ensures
            e@ == self@,
    {
        &self.entry
    }

    /// The secret source to resolve before the call can be made, when the
    /// entry needs one.
    pub fn secret_request(&self) -> (s: Option<SecretSource>)
        ensures
            needs_secret(self@.secret_source) ==> s is Some && s->0@ == self@.secret_source,
            !needs_secret(self@.secret_source) ==> s is None,
    {
        if self.entry.secret_source.requires_secret_resolution() {
            Some(self.entry.secret_source.clone())
        } else {
            None
        }
    }

    /// Turn the plan into the call: with the resolved key as bearer token when
    /// the source needs one, without authorization otherwise.
    pub fn finish(self, prompt: &Prompt, key: Option<Result<ProviderApiKey, KeyResolutionError>>) -> (r: Result<ProviderCall, ResolveError>)
        requires
            key is Some <==> needs_secret(self@.secret_source),
        ensures
            match key {
                None => r is Ok && r->Ok_0@ == call_for(prompt@, self@, AuthorizationView::Anonymous),
                Some(Ok(k)) => r is Ok && r->Ok_0@ == call_for(prompt@, self@, AuthorizationView::Bearer(k@)),
                Some(Err(e)) => r is Err && r->Err_0@ == ResolveErrorView::SecretUnavailable(e@),
            },
    {
        let authorization = match key {
            None => ProviderAuthorization::none(),
            Some(Ok(k)) => ProviderAuthorization::bearer(k),
            Some(Err(e)) => {
                return Err(ResolveError::SecretUnavailable(e));
            },
        };
        let model = match &prompt.options.model {
            Some(m) => m.clone(),
            None => self.entry.default_model.clone(),
        };
        let messages = project_messages(&prompt.chat_transcript);
        let call = ProviderCall::new(
            self.entry.name,
            self.entry.endpoint,
            model,
            authorization,
            clone_text(&prompt.system),
            messages,
            prompt.options.output_mode,
            prompt.options.temperature_milli,
            prompt.options.maximum_output_tokens,
            prompt.options.reasoning_effort,
            prompt.options.thinking_mode,
        );
        proof {
            assert(prompt@.chat_transcript.map_values(|m: ChatMessageView| project_message(m)) =~=
                prompt.chat_transcript@.map_values(|m: ChatMessage| m@).map_values(|m: ChatMessageView| project_message(m)));
        }
        Ok(call)
    }
}

/// Where the secret value for a configured source comes from.
pub trait KeySource {
    /// Whether this key source may answer `source` with `answer`. A key
    /// source that says nothing of its answers keeps this default.
    open spec fn yields(&self, source: SecretSourceView, answer: Result<Seq<char>, KeyResolutionErrorView>) -> bool {
        true
    }

    /// The key for `source`, or why there is none.
    fn resolve(&self, source: SecretSource) -> (r: Result<ProviderApiKey, KeyResolutionError>)
        ensures
            self.yields(source@, match r {
                Ok(k) => Ok(k@),
                Err(e) => Err(e@),
            });
}

/// The production key source's verified half: what it makes of a secret
/// backend's output. Reading the environment, gopass and files happens at
/// the process edge.
#[derive(Debug, Default, Clone, Copy)]
pub struct SystemKeySource;

/// Whether a character is whitespace in Unicode's `White_Space` sense.
pub open spec fn is_white_space(c: char) -> bool {
    ||| '\u{9}' <= c <= '\u{d}'
    ||| c == ' '
    ||| c == '\u{85}'
    ||| c == '\u{a0}'
    ||| c == '\u{1680}'
    ||| '\u{2000}' <= c <= '\u{200a}'
    ||| c == '\u{2028}'
    ||| c == '\u{2029}'
    ||| c == '\u{202f}'
    ||| c == '\u{205f}'
    ||| c == '\u{3000}'
}

/// A text without its leading whitespace.
pub open spec fn trim_start_spec(s: Seq<char>) -> Seq<char>
    decreases s.len(),
{
    if s.len() > 0 && is_white_space(s[0]) {
        trim_start_spec(s.drop_first())
    } else {
        s
    }
}

/// A text without its trailing whitespace.
pub open spec fn trim_end_spec(s: Seq<char>) -> Seq<char>
    decreases s.len(),
{
    if s.len() > 0 && is_white_space(s.last()) {
        trim_end_spec(s.drop_last())
    } else {
        s
    }
}

/// A text without its leading and trailing whitespace.
pub open spec fn whitespace_trimmed(s: Seq<char>) -> Seq<char> {
    trim_end_spec(trim_start_spec(s))
}

fn white_space(c: char) -> (b: bool)
    ensures
        b == is_white_space(c),
{
    ('\u{9}' <= c && c <= '\u{d}') || c == ' ' || c == '\u{85}' || c == '\u{a0}' || c == '\u{1680}'
        || ('\u{2000}' <= c && c <= '\u{200a}') || c == '\u{2028}' || c == '\u{2029}' || c == '\u{202f}'
        || c == '\u{205f}' || c == '\u{3000}'
}

/// The text without its leading and trailing whitespace.
fn trim_whitespace(s: &str) -> (t: String)
    ensures
        t@ == whitespace_trimmed(s@),
{
    let cs = crate::text::chars_of(s);
    let mut i: usize = 0;
    proof {
        assert(cs@.skip(0) =~= cs@);
    }
    while i < cs.len() && white_space(cs[i])
        invariant
            i <= cs.len(),
            trim_start_spec(cs@) == trim_start_spec(cs@.skip(i as int)),
        decreases cs.len() - i,
    {
        proof {
            assert(cs@.skip(i as int).drop_first() =~= cs@.skip(i + 1));
        }
        i = i + 1;
    }
    proof {
        if i == cs.len() {
            assert(cs@.skip(i as int) =~= Seq::<char>::empty());
        }
        assert(cs@.skip(i as int) =~= cs@.subrange(i as int, cs.len() as int));
    }
    let ghost u = cs@.subrange(i as int, cs.len() as int);
    let mut j: usize = cs.len();
    while j > i && white_space(cs[j - 1])
        invariant
            i <= j <= cs.len(),
            trim_end_spec(u) == trim_end_spec(cs@.subrange(i as int, j as int)),
        decreases j - i,
    {
        proof {
            assert(cs@.subrange(i as int, j as int).drop_last() =~= cs@.subrange(i as int, j - 1));
        }
        j = j - 1;
    }
    crate::text::string_of_chars(&cs, i, j)
}

impl SystemKeySource {
    /// What a `gopass show -o` run for `path` yields: its standard output
    /// when it succeeded, else the unavailable-secret error with the run's
    /// standard error, trimmed, as the detail.
    pub fn gopass_secret(path: &GopassPath, succeeded: bool, stdout: String, stderr: &str) -> (r: Result<String, KeyResolutionError>)
        ensures
            succeeded ==> r is Ok && r->Ok_0@ == stdout@,
            !succeeded ==> r is Err && r->Err_0@ == (KeyResolutionErrorView::GopassUnavailable {
                path: path@,
                detail: whitespace_trimmed(stderr@),
            }),
    {
        if succeeded {
            Ok(stdout)
        } else {
            Err(KeyResolutionError::GopassUnavailable {
                path: path.as_str().to_owned(),
                detail: trim_whitespace(stderr),
            })
        }
    }

    /// The key from a backend's output for `source`: trailing line breaks
    /// dropped, and an empty result refused.
    pub fn key_from_output(source: &SecretSource, output: String) -> (r: Result<ProviderApiKey, KeyResolutionError>)
        ensures
            crate::text::trim_trailing_newlines_spec(output@).len() == 0 ==> r is Err && r->Err_0@
                == KeyResolutionErrorView::EmptySecret(source_description(source@)),
            crate::text::trim_trailing_newlines_spec(output@).len() > 0 ==> r is Ok && r->Ok_0@
                == crate::text::trim_trailing_newlines_spec(output@),
    {
        let description = source.description();
        let api_key = ProviderApiKey::from_secret_output(output);
        if api_key.is_empty() {
            Err(KeyResolutionError::EmptySecret(description))
        } else {
            Ok(api_key)
        }
    }
}

impl ProviderRegistry {
    /// Match a prompt to the entry that serves it: the prompt's named
    /// provider, else the registry default.
    pub fn plan(&self, prompt: &Prompt) -> (r: Result<CallPlan, ResolveError>)
        requires
            self.wf(),
        ensures
            match plan_outcome(self@, prompt@) {
                Ok(e) => r is Ok && r->Ok_0@ == e,
                Err(err) => r is Err && r->Err_0@ == err,
            },
    {
        let provider_name = match &prompt.options.provider {
            Some(n) => n.clone(),
            None => match &self.default_provider {
                Some(d) => d.clone(),
                None => {
                    return Err(ResolveError::NoProviderConfigured);
                },
            },
        };
        match self.entry(&provider_name) {
            Some(e) => Ok(CallPlan { entry: e.clone() }),
            None => Err(ResolveError::ProviderUnknown(provider_name)),
        }
    }

    /// Resolve a prompt into a `ProviderCall`: pick the provider, pick the
    /// model, ask `keys` for the secret when the provider's source needs one,
    /// and project the chat transcript.
    pub fn resolve<K: KeySource>(&self, prompt: &Prompt, keys: &K) -> (r: Result<ProviderCall, ResolveError>)
        requires
            self.wf(),
        ensures
            match plan_outcome(self@, prompt@) {
                Err(err) => r is Err && r->Err_0@ == err,
                Ok(e) => if needs_secret(e.secret_source) {
                    match r {
                        Ok(c) => exists|k: Seq<char>| #[trigger] keys.yields(e.secret_source, Ok(k))
                            && c@ == call_for(prompt@, e, AuthorizationView::Bearer(k)),
                        Err(err) => exists|ke: KeyResolutionErrorView| #[trigger] keys.yields(e.secret_source, Err(ke))
                            && err@ == ResolveErrorView::SecretUnavailable(ke),
                    }
                } else {
                    r is Ok && r->Ok_0@ == call_for(prompt@, e, AuthorizationView::Anonymous)
                },
            },
    {
        let plan = match self.plan(prompt) {
            Ok(p) => p,
            Err(e) => {
                return Err(e);
            },
        };
        let key = match plan.secret_request() {
            Some(source) => Some(keys.resolve(source)),
            None => None,
        };
        let ghost e = plan@;
        let ghost key_v = key;
        let r = plan.finish(prompt, key);
        proof {
            if let Some(Ok(k)) = key_v {
                assert(r->Ok_0@ == call_for(prompt@, e, AuthorizationView::Bearer(k@)));
                assert(keys.yields(e.secret_source, Ok(k@)));
            }
            if let Some(Err(ke)) = key_v {
                assert(keys.yields(e.secret_source, Err(ke@)));
            }
        }
        r
    }
}


/// Reading back a configured provider gives exactly what was configured.
pub proof fn law_configure_then_lookup(v: RegistryView, e: ProviderEntryView)
    requires
        registry_well_formed(v),
    ensures
        has_name(configured(v, e).entries, e.name),
        entry_named(configured(v, e).entries, e.name) == e,
        registry_well_formed(configured(v, e)),
{
    let w = configured(v, e);
    let es = w.entries;
    if has_name(v.entries, e.name) {
        let i = choose|i: int| 0 <= i < v.entries.len() && #[trigger] v.entries[i].name == e.name;
        assert(es[i] == e);
        assert forall|a: int, b: int| 0 <= a < es.len() && 0 <= b < es.len() && a != b
            implies #[trigger] es[a].name != #[trigger] es[b].name by {
            assert(v.entries[a].name != v.entries[b].name);
        }
        lemma_entry_named_at(es, e.name, i);
        if let Some(d) = v.default_provider {
            let j = choose|j: int| 0 <= j < v.entries.len() && #[trigger] v.entries[j].name == d;
            assert(es[j].name == d);
        }
    } else {
        let i = v.entries.len() as int;
        assert(es[i] == e);
        assert forall|a: int, b: int| 0 <= a < es.len() && 0 <= b < es.len() && a != b
            implies #[trigger] es[a].name != #[trigger] es[b].name by {
            if a < i && b < i {
                assert(v.entries[a].name != v.entries[b].name);
            } else if a < i {
                assert(v.entries[a].name != e.name);
            } else if b < i {
                assert(v.entries[b].name != e.name);
            }
        }
        lemma_entry_named_at(es, e.name, i);
        if let Some(d) = v.default_provider {
            let j = choose|j: int| 0 <= j < v.entries.len() && #[trigger] v.entries[j].name == d;
            assert(es[j].name == d);
        }
    }
}

/// Configuring one provider leaves every other provider as it was.
pub proof fn law_configure_keeps_others(v: RegistryView, e: ProviderEntryView, n: Seq<char>)
    requires
        registry_well_formed(v),
        n != e.name,
    ensures
        has_name(configured(v, e).entries, n) == has_name(v.entries, n),
        has_name(v.entries, n) ==> entry_named(configured(v, e).entries, n) == entry_named(v.entries, n),
{
    law_configure_then_lookup(v, e);
    let es = configured(v, e).entries;
    if has_name(v.entries, n) {
        let i = choose|i: int| 0 <= i < v.entries.len() && #[trigger] v.entries[i].name == n;
        assert(es[i] == v.entries[i]);
        lemma_entry_named_at(v.entries, n, i);
        lemma_entry_named_at(es, n, i);
    }
    if has_name(es, n) {
        let i = choose|i: int| 0 <= i < es.len() && #[trigger] es[i].name == n;
        if i < v.entries.len() {
            assert(v.entries[i].name == n);
        }
    }
}

/// Configuring the same provider twice is the same as configuring it once.
pub proof fn law_configure_idempotent(v: RegistryView, e: ProviderEntryView)
    requires
        registry_well_formed(v),
    ensures
        configured(configured(v, e), e) == configured(v, e),
{
    law_configure_then_lookup(v, e);
    let w = configured(v, e);
    assert(has_name(w.entries, e.name));
    assert(replaced_named(w.entries, e) =~= w.entries);
}

/// A provider configured while no default is set becomes the default.
pub proof fn law_first_configured_is_default(v: RegistryView, e: ProviderEntryView)
    requires
        registry_well_formed(v),
        v.default_provider is None,
    ensures
        configured(v, e).default_provider == Some(e.name),
{
}

/// A retired provider is gone, and every other provider is as it was.
pub proof fn law_retire_removes_only_it(v: RegistryView, n: Seq<char>, m: Seq<char>)
    requires
        registry_well_formed(v),
        m != n,
    ensures
        !has_name(retired(v, n).entries, n),
        has_name(retired(v, n).entries, m) == has_name(v.entries, m),
        has_name(v.entries, m) ==> entry_named(retired(v, n).entries, m) == entry_named(v.entries, m),
{
    lemma_filter_unique(v.entries, n);
    let rs = retired(v, n).entries;
    if has_name(rs, n) {
        let k = choose|k: int| 0 <= k < rs.len() && #[trigger] rs[k].name == n;
        assert(rs[k].name != n);
    }
    if has_name(rs, m) {
        let k = choose|k: int| 0 <= k < rs.len() && #[trigger] rs[k].name == m;
        assert(has_name(v.entries, rs[k].name));
    }
    if has_name(v.entries, m) {
        let j = choose|j: int| 0 <= j < v.entries.len() && #[trigger] v.entries[j].name == m;
        assert(v.entries[j].name != n);
        assert(has_name(rs, m));
        let k = choose|k: int| 0 <= k < rs.len() && #[trigger] rs[k].name == m;
        assert(v.entries.contains(rs[k])) by {
            v.entries.lemma_filter_contains_rev(other_than(n), rs[k]);
        }
        let j2 = choose|j2: int| 0 <= j2 < v.entries.len() && v.entries[j2] == rs[k];
        if j2 != j {
            assert(v.entries[j2].name != v.entries[j].name);
        }
        lemma_entry_named_at(v.entries, m, j);
        lemma_entry_named_at(rs, m, k);
    }
}

/// Retiring a provider that is not configured changes nothing.
pub proof fn law_retire_unknown_is_noop(v: RegistryView, n: Seq<char>)
    requires
        registry_well_formed(v),
        !has_name(v.entries, n),
    ensures
        retired(v, n) == v,
{
    lemma_filter_unique(v.entries, n);
    if v.default_provider == Some(n) {
        assert(has_name(v.entries, n));
    }
}

/// The default, when one is set, always names a configured provider.
pub proof fn law_default_is_configured(v: RegistryView)
    requires
        registry_well_formed(v),
    ensures
        v.default_provider matches Some(d) ==> has_name(v.entries, d),
{
}

/// A prompt that names no provider is served by the default provider; one that
/// names a provider is served by that one.
pub proof fn law_prompt_provider_wins(v: RegistryView, p: PromptView)
    requires
        registry_well_formed(v),
    ensures
        p.options.provider matches Some(n) ==> (plan_outcome(v, p) is Ok <==> has_name(v.entries, n))
            && (plan_outcome(v, p) matches Ok(e) ==> e.name == n),
        p.options.provider is None ==> (plan_outcome(v, p) is Ok <==> v.default_provider is Some)
            && (plan_outcome(v, p) matches Ok(e) ==> Some(e.name) == v.default_provider),
{
    if let Some(n) = chosen_provider(v, p) {
        if has_name(v.entries, n) {
            let i = choose|i: int| 0 <= i < v.entries.len() && #[trigger] v.entries[i].name == n;
            lemma_entry_named_at(v.entries, n, i);
        }
    }
}


/// Retiring a provider keeps the registry invariant; retiring the default
/// leaves no default set, and retiring any other keeps the default.
pub proof fn law_retire_keeps_invariant(v: RegistryView, n: Seq<char>)
    requires
        registry_well_formed(v),
    ensures
        registry_well_formed(retired(v, n)),
        v.default_provider == Some(n) ==> retired(v, n).default_provider is None,
        v.default_provider != Some(n) ==> retired(v, n).default_provider == v.default_provider,
{
    lemma_filter_unique(v.entries, n);
    let w = retired(v, n);
    if v.default_provider != Some(n) && v.default_provider is Some {
        let d = v.default_provider->0;
        let j = choose|j: int| 0 <= j < v.entries.len() && #[trigger] v.entries[j].name == d;
        assert(v.entries[j].name != n);
        assert(has_name(w.entries, d));
    }
}

/// Setting a default keeps the registry invariant, and a successful set makes
/// the named provider the one prompts without a provider are served by.
pub proof fn law_set_default_then_default(v: RegistryView, n: Seq<char>)
    requires
        registry_well_formed(v),
    ensures
        registry_well_formed(with_default(v, n)),
        has_name(v.entries, n) ==> with_default(v, n).default_provider == Some(n),
        !has_name(v.entries, n) ==> with_default(v, n) == v,
{
}

/// A resolved call carries the prompt's options unchanged, whatever its
/// authorization: token limit, temperature, reasoning effort, thinking toggle
/// and output mode; it addresses the entry's endpoint under the entry's name,
/// and uses the prompt's model when it names one, else the entry's default.
pub proof fn law_resolved_call_keeps_prompt_options(p: PromptView, e: ProviderEntryView, a: AuthorizationView)
    ensures
        call_for(p, e, a).maximum_output_tokens == p.options.maximum_output_tokens,
        call_for(p, e, a).temperature_milli == p.options.temperature_milli,
        call_for(p, e, a).reasoning_effort == p.options.reasoning_effort,
        call_for(p, e, a).thinking_mode == p.options.thinking_mode,
        call_for(p, e, a).output_mode == p.options.output_mode,
        call_for(p, e, a).system == p.system,
        call_for(p, e, a).authorization == a,
        call_for(p, e, a).provider_name == e.name,
        call_for(p, e, a).endpoint == e.endpoint,
        p.options.model matches Some(m) ==> call_for(p, e, a).model == m,
        p.options.model is None ==> call_for(p, e, a).model == e.default_model,
{
}
} // verus!
