use vstd::prelude::*;

verus! {

/// The kind of keychain item that a search looks for.
#[derive(Clone, Copy, Debug, PartialEq, Eq, Structural)]
pub enum ItemClass {
    GenericPassword,
    InternetPassword,
    Certificate,
    Key,
    Identity,
}

impl ItemClass {
    /// Look for keychain items that are generic passwords.
    pub fn generic_password() -> (c: ItemClass)
        ensures
            c == ItemClass::GenericPassword,
    {
        ItemClass::GenericPassword
    }

    /// Look for keychain items that are internet passwords.
    pub fn internet_password() -> (c: ItemClass)
        ensures
            c == ItemClass::InternetPassword,
    {
        ItemClass::InternetPassword
    }

    /// Look for certificates.
    pub fn certificate() -> (c: ItemClass)
        ensures
            c == ItemClass::Certificate,
    {
        ItemClass::Certificate
    }

    /// Look for keys.
    pub fn key() -> (c: ItemClass)
        ensures
            c == ItemClass::Key,
    {
        ItemClass::Key
    }

    /// Look for identities.
    pub fn identity() -> (c: ItemClass)
        ensures
            c == ItemClass::Identity,
    {
        ItemClass::Identity
    }
}

/// The options of a search, as values.
pub struct SearchOptionsView {
    pub keychains: Option<Seq<Seq<char>>>,
    pub class: Option<ItemClass>,
    pub load_refs: bool,
    pub limit: Option<i64>,
    pub label: Option<Seq<char>>,
}

/// The options that a new search starts from: the default keychains, any
/// class, no references loaded, no explicit limit, any label.
pub open spec fn default_search_options() -> SearchOptionsView {
    SearchOptionsView { keychains: None, class: None, load_refs: false, limit: None, label: None }
}

/// The texts of a list of strings.
pub open spec fn texts(v: Seq<String>) -> Seq<Seq<char>> {
    v.map_values(|s: String| s@)
}

/// A builder for a search of keychain items.
pub struct ItemSearchOptions {
    keychains: Option<Vec<String>>,
    class: Option<ItemClass>,
    load_refs: bool,
    limit: Option<i64>,
    label: Option<String>,
}

impl View for ItemSearchOptions {
    type V = SearchOptionsView;

    closed spec fn view(&self) -> SearchOptionsView {
        SearchOptionsView {
            keychains: match self.keychains {
                Some(k) => Some(texts(k@)),
                None => None,
            },
            class: self.class,
            load_refs: self.load_refs,
            limit: self.limit,
            label: match self.label {
                Some(l) => Some(l@),
                None => None,
            },
        }
    }
}

/// One entry of the query that a search sends: which attribute, and its value.
pub enum SearchParam {
    /// Search only the keychains with these paths.
    SearchList(Vec<String>),
    /// Match only items of this class.
    Class(ItemClass),
    /// Return references to the found objects.
    ReturnRef(bool),
    /// Return at most this many items.
    MatchLimit(i64),
    /// Match only items with this label.
    Label(String),
}

/// A query entry, as a value.
pub enum SearchParamView {
    SearchList(Seq<Seq<char>>),
    Class(ItemClass),
    ReturnRef(bool),
    MatchLimit(i64),
    Label(Seq<char>),
}

impl View for SearchParam {
    type V = SearchParamView;

    open spec fn view(&self) -> SearchParamView {
        match self {
            SearchParam::SearchList(k) => SearchParamView::SearchList(texts(k@)),
            SearchParam::Class(c) => SearchParamView::Class(*c),
            SearchParam::ReturnRef(b) => SearchParamView::ReturnRef(*b),
            SearchParam::MatchLimit(n) => SearchParamView::MatchLimit(*n),
            SearchParam::Label(l) => SearchParamView::Label(l@),
        }
    }
}

/// The query that a search with options `o` sends, in this order: the
/// keychains to search if they were chosen, the class if one was chosen, a
/// request for references if they are to be loaded, the limit if one was set,
/// the label if one was set.
pub open spec fn search_params_of(o: SearchOptionsView) -> Seq<SearchParamView> {
    (match o.keychains {
        Some(k) => seq![SearchParamView::SearchList(k)],
        None => Seq::empty(),
    }) + (match o.class {
        Some(c) => seq![SearchParamView::Class(c)],
        None => Seq::empty(),
    }) + (if o.load_refs {
        seq![SearchParamView::ReturnRef(true)]
    } else {
        Seq::empty()
    }) + (match o.limit {
        Some(n) => seq![SearchParamView::MatchLimit(n)],
        None => Seq::empty(),
    }) + (match o.label {
        Some(l) => seq![SearchParamView::Label(l)],
        None => Seq::empty(),
    })
}

impl ItemSearchOptions {
    /// A search with the default options.
    pub fn new() -> (o: ItemSearchOptions)
        ensures
            o@ == default_search_options(),
    {
        ItemSearchOptions { keychains: None, class: None, load_refs: false, limit: None, label: None }
    }

    /// Search only the keychains with the given paths (in place of the
    /// default search list).
    pub fn keychains(&mut self, keychains: &[&str]) -> (r: &mut ItemSearchOptions)
        ensures
            (*r)@ == (SearchOptionsView {
                keychains: Some(keychains@.map_values(|k: &str| k@)),
                ..old(self)@
            }),
            final(self)@ == (*final(r))@,
    {
        let mut list: Vec<String> = Vec::new();
        let mut i: usize = 0;
        while i < keychains.len()
            invariant
                i <= keychains@.len(),
                list@.len() == i,
                forall|j: int| 0 <= j < i ==> #[trigger] list@[j]@ == keychains@[j]@,
            decreases keychains@.len() - i,
        {
            list.push(keychains[i].to_owned());
            i = i + 1;
        }
        assert(texts(list@) =~= keychains@.map_values(|k: &str| k@));
        self.keychains = Some(list);
        self
    }

    /// Search only for items of the given class.
    pub fn class(&mut self, class: ItemClass) -> (r: &mut ItemSearchOptions)
        ensures
            (*r)@ == (SearchOptionsView { class: Some(class), ..old(self)@ }),
            final(self)@ == (*final(r))@,
    {
        self.class = Some(class);
        self
    }

    /// Load the found objects (certificates, keys, ...) for the results.
    pub fn load_refs(&mut self, load_refs: bool) -> (r: &mut ItemSearchOptions)
        ensures
            (*r)@ == (SearchOptionsView { load_refs: load_refs, ..old(self)@ }),
            final(self)@ == (*final(r))@,
    {
        self.load_refs = load_refs;
        self
    }

    /// Limit the number of results. Without a limit, a search finds at most
    /// one item.
    pub fn limit(&mut self, limit: i64) -> (r: &mut ItemSearchOptions)
        ensures
            (*r)@ == (SearchOptionsView { limit: Some(limit), ..old(self)@ }),
            final(self)@ == (*final(r))@,
    {
        self.limit = Some(limit);
        self
    }

    /// Search for an item with the given label.
    pub fn label(&mut self, label: &str) -> (r: &mut ItemSearchOptions)
        ensures
            (*r)@ == (SearchOptionsView { label: Some(label@), ..old(self)@ }),
            final(self)@ == (*final(r))@,
    {
        self.label = Some(label.to_owned());
        self
    }

    /// The query that a search with these options sends.
    pub fn search_params(&self) -> (ps: Vec<SearchParam>)
        ensures
            ps@.map_values(|p: SearchParam| p@) == search_params_of(self@),
    {
        let mut ps: Vec<SearchParam> = Vec::new();
        let ghost o = self@;
        let ghost k: Seq<SearchParamView> = match o.keychains {
            Some(l) => seq![SearchParamView::SearchList(l)],
            None => Seq::empty(),
        };
        match &self.keychains {
            Some(list) => {
                ps.push(SearchParam::SearchList(clone_strings(list)));
            },
            None => {},
        }
        assert(ps@.map_values(|p: SearchParam| p@) =~= k);
        let ghost a: Seq<SearchParamView> = k + match o.class {
            Some(c) => seq![SearchParamView::Class(c)],
            None => Seq::empty(),
        };
        if let Some(class) = self.class {
            ps.push(SearchParam::Class(class));
        }
        assert(ps@.map_values(|p: SearchParam| p@) =~= a);
        let ghost b: Seq<SearchParamView> = if o.load_refs {
            seq![SearchParamView::ReturnRef(true)]
        } else {
            Seq::empty()
        };
        if self.load_refs {
            ps.push(SearchParam::ReturnRef(true));
        }
        assert(ps@.map_values(|p: SearchParam| p@) =~= a + b);
        let ghost c: Seq<SearchParamView> = match o.limit {
            Some(n) => seq![SearchParamView::MatchLimit(n)],
            None => Seq::empty(),
        };
        if let Some(limit) = self.limit {
            ps.push(SearchParam::MatchLimit(limit));
        }
        assert(ps@.map_values(|p: SearchParam| p@) =~= a + b + c);
        let ghost d: Seq<SearchParamView> = match o.label {
            Some(l) => seq![SearchParamView::Label(l)],
            None => Seq::empty(),
        };
        match &self.label {
            Some(label) => {
                ps.push(SearchParam::Label(label.clone()));
            },
            None => {},
        }
        assert(ps@.map_values(|p: SearchParam| p@) =~= a + b + c + d);
        ps
    }
}

impl Default for ItemSearchOptions {
    /// The default options, as `ItemSearchOptions::new` gives them.
    fn default() -> (o: ItemSearchOptions)
        ensures
            o@ == default_search_options(),
    {
        ItemSearchOptions::new()
    }
}

/// The kind of object that a search result refers to.
#[derive(Clone, Copy, Debug, PartialEq, Eq, Structural)]
pub enum ReferenceKind {
    Identity,
    Certificate,
    Key,
    KeychainItem,
}

/// What an object of type `type_id` is, given the type ids of certificates,
/// keys, identities and (where the platform has them) keychain items, tried
/// in that order; `None` for any other type.
pub open spec fn reference_kind_of(
    type_id: u64,
    certificate_type: u64,
    key_type: u64,
    identity_type: u64,
    keychain_item_type: Option<u64>,
) -> Option<ReferenceKind> {
    if type_id == certificate_type {
        Some(ReferenceKind::Certificate)
    } else if type_id == key_type {
        Some(ReferenceKind::Key)
    } else if type_id == identity_type {
        Some(ReferenceKind::Identity)
    } else if keychain_item_type == Some(type_id) {
        Some(ReferenceKind::KeychainItem)
    } else {
        None
    }
}

/// Tells which kind of object a search result of type `type_id` refers to:
/// certificates are tried first, then keys, then identities, then keychain
/// items where the platform has them (`keychain_item_type` is `None` where it
/// does not). `None` where the type is none of them.
pub fn reference_kind(
    type_id: u64,
    certificate_type: u64,
    key_type: u64,
    identity_type: u64,
    keychain_item_type: Option<u64>,
) -> (k: Option<ReferenceKind>)
    ensures
        k == reference_kind_of(type_id, certificate_type, key_type, identity_type, keychain_item_type),
{
    if type_id == certificate_type {
        Some(ReferenceKind::Certificate)
    } else if type_id == key_type {
        Some(ReferenceKind::Key)
    } else if type_id == identity_type {
        Some(ReferenceKind::Identity)
    } else {
        match keychain_item_type {
            Some(t) if t == type_id => Some(ReferenceKind::KeychainItem),
            _ => None,
        }
    }
}

/// A copy of a list of strings.
fn clone_strings(v: &Vec<String>) -> (r: Vec<String>)
    ensures
        texts(r@) == texts(v@),
{
    let mut r: Vec<String> = Vec::new();
    let mut i: usize = 0;
    while i < v.len()
        invariant
            i <= v@.len(),
            r@.len() == i,
            forall|j: int| 0 <= j < i ==> #[trigger] r@[j]@ == v@[j]@,
        decreases v@.len() - i,
    {
        r.push(v[i].clone());
        i = i + 1;
    }
    assert(texts(r@) =~= texts(v@));
    r
}

/// One query entry for each option that is set, none for the others.
pub open spec fn set_options(o: SearchOptionsView) -> nat {
    (if o.keychains is Some { 1nat } else { 0nat }) + (if o.class is Some { 1nat } else { 0nat })
        + (if o.load_refs { 1nat } else { 0nat }) + (if o.limit is Some { 1nat } else { 0nat })
        + (if o.label is Some { 1nat } else { 0nat })
}

/// The query sends an entry for an option exactly when that option is set,
/// with the option's own value: `Class(c)` is in the query exactly when the
/// class is `Some(c)`, the request for references exactly when references are
/// to be loaded, `MatchLimit(n)` exactly when the limit is `Some(n)`,
/// `Label(l)` exactly when the label is `Some(l)`, `SearchList(k)` exactly
/// when the keychains are `Some(k)`; and the query holds nothing else.
pub proof fn law_query_sends_each_set_option(o: SearchOptionsView)
    ensures
        search_params_of(o).len() == set_options(o),
        forall|c: ItemClass| #[trigger] search_params_of(o).contains(SearchParamView::Class(c))
            <==> o.class == Some(c),
        forall|b: bool| #[trigger] search_params_of(o).contains(SearchParamView::ReturnRef(b))
            <==> (o.load_refs && b),
        forall|n: i64| #[trigger] search_params_of(o).contains(SearchParamView::MatchLimit(n))
            <==> o.limit == Some(n),
        forall|l: Seq<char>| #[trigger] search_params_of(o).contains(SearchParamView::Label(l))
            <==> o.label == Some(l),
        forall|k: Seq<Seq<char>>| #[trigger] search_params_of(o).contains(SearchParamView::SearchList(k))
            <==> o.keychains == Some(k),
{
    let a: Seq<SearchParamView> = match o.keychains {
        Some(k) => seq![SearchParamView::SearchList(k)],
        None => Seq::empty(),
    };
    let b: Seq<SearchParamView> = match o.class {
        Some(c) => seq![SearchParamView::Class(c)],
        None => Seq::empty(),
    };
    let c: Seq<SearchParamView> = if o.load_refs {
        seq![SearchParamView::ReturnRef(true)]
    } else {
        Seq::empty()
    };
    let d: Seq<SearchParamView> = match o.limit {
        Some(n) => seq![SearchParamView::MatchLimit(n)],
        None => Seq::empty(),
    };
    let e: Seq<SearchParamView> = match o.label {
        Some(l) => seq![SearchParamView::Label(l)],
        None => Seq::empty(),
    };
    assert(search_params_of(o) == a + b + c + d + e);
    lemma_contains_add(a, b);
    lemma_contains_add(a + b, c);
    lemma_contains_add(a + b + c, d);
    lemma_contains_add(a + b + c + d, e);
    lemma_contains_single(a);
    lemma_contains_single(b);
    lemma_contains_single(c);
    lemma_contains_single(d);
    lemma_contains_single(e);
}

/// An item is in a concatenation exactly when it is in one of the parts.
proof fn lemma_contains_add(x: Seq<SearchParamView>, y: Seq<SearchParamView>)
    ensures
        forall|v: SearchParamView| #[trigger] (x + y).contains(v) <==> (x.contains(v) || y.contains(v)),
{
    assert forall|v: SearchParamView| #[trigger] (x + y).contains(v) <==> (x.contains(v) || y.contains(v)) by {
        if (x + y).contains(v) {
            let i = choose|i: int| 0 <= i < (x + y).len() && (x + y)[i] == v;
            if i < x.len() {
                assert(x[i] == v);
            } else {
                assert(y[i - x.len()] == v);
            }
        }
        if x.contains(v) {
            let i = choose|i: int| 0 <= i < x.len() && x[i] == v;
            assert((x + y)[i] == v);
        }
        if y.contains(v) {
            let i = choose|i: int| 0 <= i < y.len() && y[i] == v;
            assert((x + y)[x.len() + i] == v);
        }
    }
}

/// A sequence of at most one item holds exactly that item.
proof fn lemma_contains_single(x: Seq<SearchParamView>)
    requires
        x.len() <= 1,
    ensures
        forall|v: SearchParamView| #[trigger] x.contains(v) <==> (x.len() == 1 && x[0] == v),
{
    assert forall|v: SearchParamView| #[trigger] x.contains(v) <==> (x.len() == 1 && x[0] == v) by {
        if x.len() == 1 && x[0] == v {
            assert(x[0] == v);
        }
    }
}

/// A search result is read as a certificate exactly when its type is the
/// certificate type; as a key exactly when its type is the key type and not
/// the certificate type; as an identity exactly when its type is the identity
/// type and neither of those; as a keychain item exactly when its type is the
/// keychain item type (where there is one) and none of the others; and it is
/// not read at all exactly when its type is none of them.
pub proof fn law_reference_kind_follows_type(
    type_id: u64,
    certificate_type: u64,
    key_type: u64,
    identity_type: u64,
    keychain_item_type: Option<u64>,
)
    ensures
        ({
            let k = reference_kind_of(type_id, certificate_type, key_type, identity_type, keychain_item_type);
            &&& (k == Some(ReferenceKind::Certificate) <==> type_id == certificate_type)
            &&& (k == Some(ReferenceKind::Key) <==> (type_id == key_type && type_id != certificate_type))
            &&& (k == Some(ReferenceKind::Identity) <==> (type_id == identity_type && type_id != certificate_type
                && type_id != key_type))
            &&& (k == Some(ReferenceKind::KeychainItem) <==> (keychain_item_type == Some(type_id)
                && type_id != certificate_type && type_id != key_type && type_id != identity_type))
            &&& (k is None <==> (type_id != certificate_type && type_id != key_type && type_id != identity_type
                && keychain_item_type != Some(type_id)))
        }),
{
}

} // verus!
