//! The listing of services: every unit file of the directory that
//! declares a service, with its liveness and its overlay, in display
//! order.

use crate::descriptor::{clone_opt_string, LaunchAgent, LaunchAgentView, ServiceConfigView};
use crate::error::{failure, ErrorKind, ServiceError, ServiceErrorView};
use crate::liveness::LoadedTable;
use crate::overlay::{MetadataStore, Overlays};
use crate::text::{
    chars_of, ends_with, has_suffix, lemma_lex_total, lemma_lex_transitive, lex_less, lex_lt,
};
use crate::property_list::plist_decoded;
use crate::unit_file::{
    config_model, descriptor_of_bytes, lemma_written_unit_file_reads_back, parse_plist_file,
    unit_file_content,
};
use vstd::prelude::*;

verus! {

/// `a` is shown before `b`: a service with an order comes before one
/// with a greater order and before every service without; services
/// without order go by label.
pub open spec fn precedes(a: LaunchAgentView, b: LaunchAgentView) -> bool {
    match (a.overlay.order, b.overlay.order) {
        (Some(x), Some(y)) => x < y,
        (Some(_), None) => true,
        (None, Some(_)) => false,
        (None, None) => lex_lt(a.declared.label, b.declared.label),
    }
}

/// Two services cannot each come before the other.
pub proof fn lemma_precedes_asymmetric(a: LaunchAgentView, b: LaunchAgentView)
    ensures
        !(precedes(a, b) && precedes(b, a)),
{
    lemma_lex_total(a.declared.label, b.declared.label);
}

/// What comes before a service comes before everything that does not
/// come before that service.
pub proof fn lemma_precedes_carries(a: LaunchAgentView, b: LaunchAgentView, c: LaunchAgentView)
    requires
        precedes(a, b),
        !precedes(c, b),
    ensures
        precedes(a, c),
{
    if a.overlay.order is None && b.overlay.order is None && c.overlay.order is None {
        lemma_lex_total(c.declared.label, b.declared.label);
        if lex_lt(b.declared.label, c.declared.label) {
            lemma_lex_transitive(a.declared.label, b.declared.label, c.declared.label);
        }
    }
}

/// `v` is one of the places that `p` tells of.
pub open spec fn occurs(p: Seq<int>, v: int) -> bool {
    exists|i: int| 0 <= i < p.len() && #[trigger] p[i] == v
}

/// `sorted` holds the services `source[from..]` in display order, and
/// `p` tells for each place of `sorted` where in `source` its service
/// stood. Services of which none comes before the other keep the order
/// they had in `source`.
pub open spec fn arranges(
    source: Seq<LaunchAgentView>,
    sorted: Seq<LaunchAgentView>,
    p: Seq<int>,
    from: int,
) -> bool {
    &&& 0 <= from <= source.len()
    &&& sorted.len() == source.len() - from
    &&& p.len() == sorted.len()
    &&& forall|i: int|
        0 <= i < p.len() ==> from <= #[trigger] p[i] < source.len() && sorted[i] == source[p[i]]
    &&& forall|i: int, j: int| 0 <= i < j < p.len() ==> #[trigger] p[i] != #[trigger] p[j]
    &&& forall|v: int| from <= v < source.len() ==> #[trigger] occurs(p, v)
    &&& forall|i: int, j: int|
        0 <= i < j < sorted.len() ==> !precedes(#[trigger] sorted[j], #[trigger] sorted[i])
    &&& forall|i: int, j: int|
        0 <= i < j < sorted.len() && !precedes(#[trigger] sorted[i], #[trigger] sorted[j])
            ==> p[i] < p[j]
}

/// `result` holds the services of `source` in display order: the same
/// services, none before one that comes before it, and those of which
/// none comes before the other in the order they had in `source`.
pub open spec fn is_display_order(
    result: Seq<LaunchAgentView>,
    source: Seq<LaunchAgentView>,
) -> bool {
    exists|p: Seq<int>| arranges(source, result, p, 0)
}

proof fn lemma_place(
    source: Seq<LaunchAgentView>,
    sorted: Seq<LaunchAgentView>,
    p: Seq<int>,
    m: int,
    k: int,
)
    requires
        0 <= m < source.len(),
        arranges(source, sorted, p, m + 1),
        0 <= k <= sorted.len(),
        forall|j: int| 0 <= j < k ==> precedes(#[trigger] sorted[j], source[m]),
        k < sorted.len() ==> !precedes(sorted[k], source[m]),
    ensures
        arranges(source, sorted.insert(k, source[m]), p.insert(k, m), m),
{
    let x = source[m];
    let after = sorted.insert(k, x);
    let moved = p.insert(k, m);
    assert forall|i: int| 0 <= i < moved.len() implies m <= #[trigger] moved[i] < source.len() && after[i]
        == source[moved[i]] by {
        if i < k {
            assert(moved[i] == p[i]);
            assert(after[i] == sorted[i]);
        } else if i > k {
            assert(moved[i] == p[i - 1]);
            assert(after[i] == sorted[i - 1]);
        }
    }
    assert forall|i: int, j: int| 0 <= i < j < moved.len() implies #[trigger] moved[i] != #[trigger] moved[j] by {
        let a = if i < k { i } else { i - 1 };
        let b = if j < k { j } else { j - 1 };
        if i != k && j != k {
            assert(moved[i] == p[a]);
            assert(moved[j] == p[b]);
        } else if i == k {
            assert(moved[j] == p[b]);
        } else {
            assert(moved[i] == p[a]);
        }
    }
    assert forall|v: int| m <= v < source.len() implies #[trigger] occurs(moved, v) by {
        if v == m {
            assert(moved[k] == m);
        } else {
            assert(occurs(p, v));
            let i = choose|i: int| 0 <= i < p.len() && #[trigger] p[i] == v;
            if i < k {
                assert(moved[i] == v);
            } else {
                assert(moved[i + 1] == p[i]);
            }
        }
    }
    assert forall|i: int, j: int| 0 <= i < j < after.len() implies !precedes(
        #[trigger] after[j],
        #[trigger] after[i],
    ) by {
        let a = if i < k { i } else { i - 1 };
        let b = if j < k { j } else { j - 1 };
        if i != k && j != k {
            assert(after[i] == sorted[a]);
            assert(after[j] == sorted[b]);
        } else if j == k {
            assert(after[i] == sorted[i]);
            lemma_precedes_asymmetric(sorted[i], x);
        } else {
            assert(after[j] == sorted[b]);
            if b > k {
                if precedes(sorted[b], x) {
                    lemma_precedes_carries(sorted[b], x, sorted[k]);
                }
            }
        }
    }
    assert forall|i: int, j: int|
        0 <= i < j < after.len() && !precedes(#[trigger] after[i], #[trigger] after[j]) implies moved[i]
        < moved[j] by {
        let a = if i < k { i } else { i - 1 };
        let b = if j < k { j } else { j - 1 };
        if i != k && j != k {
            assert(after[i] == sorted[a]);
            assert(after[j] == sorted[b]);
            assert(moved[i] == p[a]);
            assert(moved[j] == p[b]);
        } else if j == k {
            assert(after[i] == sorted[i]);
        } else {
            assert(moved[j] == p[b]);
        }
    }
}

/// Executable form of [`precedes`].
pub fn comes_before(a: &LaunchAgent, b: &LaunchAgent) -> (r: bool)
    ensures
        r == precedes(a@, b@),
{
    match (a.order, b.order) {
        (Some(x), Some(y)) => x < y,
        (Some(_), None) => true,
        (None, Some(_)) => false,
        (None, None) => {
            let x = chars_of(a.label.as_str());
            let y = chars_of(b.label.as_str());
            lex_less(&x, &y)
        },
    }
}

/// Puts services in display order.
pub fn sort_services(agents: Vec<LaunchAgent>) -> (r: Vec<LaunchAgent>)
    ensures
        is_display_order(r.deep_view(), agents.deep_view()),
{
    let ghost source = agents.deep_view();
    let mut rest = agents;
    let mut out: Vec<LaunchAgent> = Vec::new();
    let ghost mut p: Seq<int> = Seq::empty();
    loop
        invariant
            rest@.len() <= source.len(),
            rest.deep_view() == source.take(rest@.len() as int),
            arranges(source, out.deep_view(), p, rest@.len() as int),
        ensures
            rest@.len() == 0,
            arranges(source, out.deep_view(), p, 0),
        decreases rest@.len(),
    {
        let ghost before_rest = rest.deep_view();
        let x = match rest.pop() {
            Some(x) => x,
            None => {
                break;
            },
        };
        let ghost m = rest@.len() as int;
        proof {
            assert(before_rest[m] == x@);
        }
        let mut k: usize = 0;
        while k < out.len() && comes_before(&out[k], &x)
            invariant
                k <= out@.len(),
                forall|j: int| 0 <= j < k ==> precedes(#[trigger] out.deep_view()[j], x@),
            decreases out@.len() - k,
        {
            k = k + 1;
        }
        let ghost sorted = out.deep_view();
        proof {
            lemma_place(source, sorted, p, m, k as int);
        }
        out.insert(k, x);
        proof {
            assert(out.deep_view() =~= sorted.insert(k as int, source[m]));
            p = p.insert(k as int, m);
        }
    }
    out
}

/// An entry of the directory of unit files.
#[derive(Debug, PartialEq, Eq)]
pub struct UnitFileEntry {
    /// The entry's name within the directory.
    pub file_name: String,
    /// The entry's path.
    pub path: String,
    /// The file's content; none where it could not be read.
    pub content: Option<Vec<u8>>,
}

/// Mathematical form of [`UnitFileEntry`].
pub struct EntryView {
    pub file_name: Seq<char>,
    pub path: Seq<char>,
    pub content: Option<Seq<u8>>,
}

impl View for UnitFileEntry {
    type V = EntryView;

    open spec fn view(&self) -> EntryView {
        EntryView { file_name: self.file_name@, path: self.path@, content: self.content.deep_view() }
    }
}

impl DeepView for UnitFileEntry {
    type V = EntryView;

    open spec fn deep_view(&self) -> EntryView {
        self@
    }
}

/// Whether a file of this name counts as a unit file: the name ends in
/// `.plist` and has something before that.
pub open spec fn is_unit_file_name(name: Seq<char>) -> bool {
    name.len() > 6 && ends_with(name, ".plist"@)
}

/// Executable form of [`is_unit_file_name`].
pub fn has_unit_file_name(name: &str) -> (r: bool)
    ensures
        r == is_unit_file_name(name@),
{
    let all = chars_of(name);
    let suffix = chars_of(".plist");
    all.len() > 6 && has_suffix(&all, &suffix)
}

/// A descriptor with its liveness: a service whose label the supervisor
/// lists is loaded, with the process id that the supervisor tells.
pub open spec fn with_liveness(agent: LaunchAgentView, loaded: Map<Seq<char>, Option<i32>>) -> LaunchAgentView {
    if loaded.contains_key(agent.declared.label) {
        LaunchAgentView { is_loaded: true, pid: loaded[agent.declared.label], ..agent }
    } else {
        agent
    }
}

/// A descriptor with the overlay stored for its label, where there is
/// one.
pub open spec fn with_overlay(agent: LaunchAgentView, overlays: Overlays) -> LaunchAgentView {
    if overlays.contains_key(agent.declared.label) {
        LaunchAgentView { overlay: overlays[agent.declared.label], ..agent }
    } else {
        agent
    }
}

/// The service that an entry contributes to the listing: none unless
/// the entry is named like a unit file, could be read, and declares a
/// service.
pub open spec fn listed(
    entry: EntryView,
    loaded: Map<Seq<char>, Option<i32>>,
    overlays: Overlays,
) -> Option<LaunchAgentView> {
    if !is_unit_file_name(entry.file_name) {
        None
    } else {
        match entry.content {
            None => None,
            Some(content) => match descriptor_of_bytes(content, entry.path) {
                None => None,
                Some(agent) => Some(with_overlay(with_liveness(agent, loaded), overlays)),
            },
        }
    }
}

/// The services that the entries contribute, in the entries' order.
pub open spec fn collected(
    entries: Seq<EntryView>,
    loaded: Map<Seq<char>, Option<i32>>,
    overlays: Overlays,
) -> Seq<LaunchAgentView>
    decreases entries.len(),
{
    if entries.len() == 0 {
        Seq::empty()
    } else {
        let before = collected(entries.drop_last(), loaded, overlays);
        match listed(entries.last(), loaded, overlays) {
            Some(agent) => before.push(agent),
            None => before,
        }
    }
}

fn list_entry(entry: &UnitFileEntry, loaded: &LoadedTable, metadata: &MetadataStore) -> (r: Option<
    LaunchAgent,
>)
    ensures
        r.deep_view() == listed(entry@, loaded@, metadata@),
{
    if !has_unit_file_name(entry.file_name.as_str()) {
        return None;
    }
    let content = match &entry.content {
        Some(content) => content,
        None => {
            return None;
        },
    };
    proof {
        assert(content.deep_view() =~= content@);
    }
    let mut agent = match parse_plist_file(content.as_slice(), entry.path.as_str()) {
        Some(agent) => agent,
        None => {
            return None;
        },
    };
    match loaded.get(agent.label.as_str()) {
        Some(pid) => {
            agent.is_loaded = true;
            agent.pid = *pid;
        },
        None => {},
    }
    match metadata.get(agent.label.as_str()) {
        Some(meta) => {
            agent.display_name = clone_opt_string(&meta.display_name);
            agent.description = clone_opt_string(&meta.description);
            agent.icon = clone_opt_string(&meta.icon);
            agent.port = meta.port;
            agent.health_url = clone_opt_string(&meta.health_url);
            agent.order = meta.order;
            agent.project_path = clone_opt_string(&meta.project_path);
            agent.app_path = clone_opt_string(&meta.app_path);
        },
        None => {},
    }
    Some(agent)
}

/// What reading the directory of unit files came to.
#[derive(Debug, PartialEq, Eq)]
pub enum DirectoryListing {
    /// There is no such directory.
    Absent,
    /// The directory could not be read, for the given reason.
    Unreadable(String),
    Entries(Vec<UnitFileEntry>),
}

/// The listing for a directory. An absent directory has no services; a
/// directory that could not be read is a failure; otherwise the listing
/// holds the services that the entries contribute, in display order.
pub open spec fn is_listing_of(
    result: Result<Seq<LaunchAgentView>, ServiceErrorView>,
    directory: DirectoryListing,
    loaded: Map<Seq<char>, Option<i32>>,
    overlays: Overlays,
) -> bool {
    match directory {
        DirectoryListing::Absent => result == Ok::<Seq<LaunchAgentView>, ServiceErrorView>(
            Seq::empty(),
        ),
        DirectoryListing::Unreadable(reason) => result == Err::<
            Seq<LaunchAgentView>,
            ServiceErrorView,
        >(failure(ErrorKind::PermissionOrTransport, reason@)),
        DirectoryListing::Entries(entries) => result matches Ok(agents) && is_display_order(
            agents,
            collected(entries.deep_view(), loaded, overlays),
        ),
    }
}

/// Lists the services of a directory.
pub fn get_services(directory: &DirectoryListing, loaded: &LoadedTable, metadata: &MetadataStore) -> (r:
    Result<Vec<LaunchAgent>, ServiceError>)
    ensures
        is_listing_of(
            match r {
                Ok(agents) => Ok(agents.deep_view()),
                Err(e) => Err(e@),
            },
            *directory,
            loaded@,
            metadata@,
        ),
{
    let entries = match directory {
        DirectoryListing::Absent => {
            let none: Vec<LaunchAgent> = Vec::new();
            proof {
                assert(none.deep_view() =~= Seq::<LaunchAgentView>::empty());
            }
            return Ok(none);
        },
        DirectoryListing::Unreadable(reason) => {
            return Err(ServiceError::new(ErrorKind::PermissionOrTransport, reason.clone()));
        },
        DirectoryListing::Entries(entries) => entries,
    };
    let ghost all = entries.deep_view();
    let mut agents: Vec<LaunchAgent> = Vec::new();
    let mut i: usize = 0;
    while i < entries.len()
        invariant
            i <= entries.len(),
            all == entries.deep_view(),
            agents.deep_view() == collected(all.take(i as int), loaded@, metadata@),
        decreases entries.len() - i,
    {
        proof {
            assert(all.take(i + 1).drop_last() == all.take(i as int));
        }
        match list_entry(&entries[i], loaded, metadata) {
            Some(agent) => {
                agents.push(agent);
            },
            None => {},
        }
        i = i + 1;
    }
    proof {
        assert(all.take(entries@.len() as int) == all);
    }
    Ok(sort_services(agents))
}

proof fn lemma_same_place(
    source: Seq<LaunchAgentView>,
    r1: Seq<LaunchAgentView>,
    p: Seq<int>,
    r2: Seq<LaunchAgentView>,
    q: Seq<int>,
    i: int,
)
    requires
        arranges(source, r1, p, 0),
        arranges(source, r2, q, 0),
        0 <= i < source.len(),
        forall|x: int| 0 <= x < i ==> #[trigger] p[x] == q[x],
    ensures
        p[i] == q[i],
{
    let a = p[i];
    let b = q[i];
    if a != b {
        assert(occurs(q, a));
        let j = choose|j: int| 0 <= j < q.len() && #[trigger] q[j] == a;
        assert(occurs(p, b));
        let k = choose|k: int| 0 <= k < p.len() && #[trigger] p[k] == b;
        if j < i {
            assert(p[j] == q[j]);
        }
        if k < i {
            assert(p[k] == q[k]);
        }
        assert(i < j);
        assert(i < k);
        assert(r1[i] == source[a]);
        assert(r1[k] == source[b]);
        assert(r2[i] == source[b]);
        assert(r2[j] == source[a]);
        assert(!precedes(r1[k], r1[i]));
        assert(!precedes(r2[j], r2[i]));
        assert(p[i] < p[k]);
        assert(q[i] < q[j]);
    }
}

proof fn lemma_same_places(
    source: Seq<LaunchAgentView>,
    r1: Seq<LaunchAgentView>,
    p: Seq<int>,
    r2: Seq<LaunchAgentView>,
    q: Seq<int>,
    n: int,
)
    requires
        arranges(source, r1, p, 0),
        arranges(source, r2, q, 0),
        0 <= n <= source.len(),
    ensures
        forall|x: int| 0 <= x < n ==> #[trigger] p[x] == q[x],
    decreases n,
{
    if n > 0 {
        lemma_same_places(source, r1, p, r2, q, n - 1);
        lemma_same_place(source, r1, p, r2, q, n - 1);
    }
}

/// Services have one display order only.
pub proof fn lemma_display_order_unique(
    source: Seq<LaunchAgentView>,
    r1: Seq<LaunchAgentView>,
    r2: Seq<LaunchAgentView>,
)
    requires
        is_display_order(r1, source),
        is_display_order(r2, source),
    ensures
        r1 == r2,
{
    let p = choose|p: Seq<int>| arranges(source, r1, p, 0);
    let q = choose|q: Seq<int>| arranges(source, r2, q, 0);
    lemma_same_places(source, r1, p, r2, q, source.len() as int);
    assert forall|i: int| 0 <= i < r1.len() implies r1[i] == r2[i] by {
        assert(p[i] == q[i]);
        assert(r1[i] == source[p[i]]);
        assert(r2[i] == source[q[i]]);
    }
    assert(r1 =~= r2);
}

/// The listing is determined by what was read: two listings of the same
/// directory content, the same loaded units and the same overlays are
/// equal, order included.
pub proof fn lemma_listing_is_determined(
    directory: DirectoryListing,
    loaded: Map<Seq<char>, Option<i32>>,
    overlays: Overlays,
    first: Result<Seq<LaunchAgentView>, ServiceErrorView>,
    second: Result<Seq<LaunchAgentView>, ServiceErrorView>,
)
    requires
        is_listing_of(first, directory, loaded, overlays),
        is_listing_of(second, directory, loaded, overlays),
    ensures
        first == second,
{
    match directory {
        DirectoryListing::Entries(entries) => {
            lemma_display_order_unique(
                collected(entries.deep_view(), loaded, overlays),
                first->Ok_0,
                second->Ok_0,
            );
        },
        _ => {},
    }
}

/// A service that was created is listed as it was configured. Where the
/// unit file written for a configuration is an entry of the directory,
/// and the `plist` crate reads back the document that it wrote, the entry
/// contributes a service that declares exactly that configuration: each
/// field that was set has its value, and each field that was not is
/// absent. The configuration names each environment variable once.
pub proof fn lemma_created_service_is_listed(
    c: ServiceConfigView,
    content: Seq<u8>,
    entry: EntryView,
    loaded: Map<Seq<char>, Option<i32>>,
    overlays: Overlays,
)
    requires
        c.wf(),
        unit_file_content(c) == Ok::<Seq<u8>, Seq<char>>(content),
        plist_decoded(content) == Some(config_model(c)),
        is_unit_file_name(entry.file_name),
        entry.content == Some(content),
    ensures
        listed(entry, loaded, overlays) matches Some(agent) && agent.declared == c
            && agent.file_path == entry.path,
        !overlays.contains_key(c.label) ==> listed(entry, loaded, overlays)->0.overlay
            == crate::descriptor::ServiceMetadataView::blank(),
{
    lemma_written_unit_file_reads_back(c, entry.path);
}

} // verus!
