//! Proxy endpoints.
//!
//! Whether a proxy URI can be used is `reqwest`'s decision, and for a SOCKS
//! endpoint it may involve resolving a host name: it is no function of the
//! text alone. The library therefore states of a selection only what holds
//! whatever `reqwest` answered: every URI went to exactly one side, in order.

use vstd::prelude::*;

verus! {

/// `reqwest::Proxy`, carried from where it is made to the HTTP client;
/// nothing is known of what it holds.
#[verifier::external_type_specification]
#[verifier::external_body]
pub struct ExProxy(reqwest::Proxy);

/// A proxy that `reqwest` accepted, with the URI it was made from.
#[derive(Debug)]
pub struct ProxyEndpoint {
    uri: String,
    proxy: reqwest::Proxy,
}

/// A proxy URI that `reqwest` refused, with the reason it gave.
#[derive(Debug, PartialEq, Eq)]
pub struct RejectedProxy {
    pub uri: String,
    pub reason: String,
}

/// The outcome of validating a list of proxy URIs.
#[derive(Debug)]
pub struct ProxySelection {
    /// The endpoints to route through, in the order they were given.
    pub accepted: Vec<ProxyEndpoint>,
    /// What was dropped, for the caller to warn about.
    pub rejected: Vec<RejectedProxy>,
}

impl View for ProxyEndpoint {
    type V = Seq<char>;

    /// The URI of the endpoint.
    closed spec fn view(&self) -> Seq<char> {
        self.uri@
    }
}

/// The URIs of a list of endpoints.
pub open spec fn uris_of(endpoints: Seq<ProxyEndpoint>) -> Seq<Seq<char>> {
    Seq::new(endpoints.len(), |i: int| endpoints[i]@)
}

/// The URIs of a list of rejected proxies.
pub open spec fn rejected_uris_of(rejected: Seq<RejectedProxy>) -> Seq<Seq<char>> {
    Seq::new(rejected.len(), |i: int| rejected[i].uri@)
}

/// The URIs of a list of strings.
pub open spec fn texts_of(items: Seq<String>) -> Seq<Seq<char>> {
    Seq::new(items.len(), |i: int| items[i]@)
}

/// The items whose verdict is `wanted`, in their order. `verdicts` is read as
/// far as `items` reaches.
pub open spec fn pick<T>(items: Seq<T>, verdicts: Seq<bool>, wanted: bool) -> Seq<T>
    decreases items.len(),
{
    if items.len() == 0 || verdicts.len() < items.len() {
        Seq::empty()
    } else {
        let before = pick(items.drop_last(), verdicts, wanted);
        if verdicts[items.len() - 1] == wanted {
            before.push(items.last())
        } else {
            before
        }
    }
}

/// Picking by a verdict and by its opposite splits the items: none is lost and
/// none is taken twice.
pub proof fn lemma_pick_splits<T>(items: Seq<T>, verdicts: Seq<bool>)
    requires
        verdicts.len() >= items.len(),
    ensures
        pick(items, verdicts, true).len() + pick(items, verdicts, false).len() == items.len(),
    decreases items.len(),
{
    if items.len() > 0 {
        lemma_pick_splits(items.drop_last(), verdicts);
    }
}

/// What is picked was among the items, under a verdict that wanted it, and
/// keeps its order: the picked items sit at strictly rising positions.
pub proof fn lemma_pick_is_ordered_selection<T>(items: Seq<T>, verdicts: Seq<bool>, wanted: bool)
    requires
        verdicts.len() >= items.len(),
    ensures
        exists|at: Seq<int>|
            #![trigger at.len()]
            {
                &&& at.len() == pick(items, verdicts, wanted).len()
                &&& forall|k: int|
                    0 <= k < at.len() ==> 0 <= #[trigger] at[k] < items.len() && verdicts[at[k]]
                        == wanted && pick(items, verdicts, wanted)[k] == items[at[k]]
                &&& forall|k: int, l: int| 0 <= k < l < at.len() ==> at[k] < at[l]
            },
    decreases items.len(),
{
    if items.len() == 0 {
        let at = Seq::<int>::empty();
        assert(at.len() == pick(items, verdicts, wanted).len());
    } else {
        let front = items.drop_last();
        lemma_pick_is_ordered_selection(front, verdicts, wanted);
        let before = choose|at: Seq<int>|
            #![trigger at.len()]
            {
                &&& at.len() == pick(front, verdicts, wanted).len()
                &&& forall|k: int|
                    0 <= k < at.len() ==> 0 <= #[trigger] at[k] < front.len() && verdicts[at[k]]
                        == wanted && pick(front, verdicts, wanted)[k] == front[at[k]]
                &&& forall|k: int, l: int| 0 <= k < l < at.len() ==> at[k] < at[l]
            };
        let at = if verdicts[items.len() - 1] == wanted {
            before.push(items.len() - 1)
        } else {
            before
        };
        assert(at.len() == pick(items, verdicts, wanted).len());
        assert forall|k: int| 0 <= k < at.len() implies 0 <= #[trigger] at[k] < items.len()
            && verdicts[at[k]] == wanted && pick(items, verdicts, wanted)[k] == items[at[k]] by {
            if k < before.len() {
                assert(front[before[k]] == items[before[k]]);
            }
        }
    }
}

/// Every item whose verdict is `wanted` is picked.
pub proof fn lemma_pick_keeps_all<T>(items: Seq<T>, verdicts: Seq<bool>, wanted: bool, i: int)
    requires
        verdicts.len() >= items.len(),
        0 <= i < items.len(),
        verdicts[i] == wanted,
    ensures
        pick(items, verdicts, wanted).contains(items[i]),
    decreases items.len(),
{
    let picked = pick(items, verdicts, wanted);
    if i == items.len() - 1 {
        assert(picked[picked.len() - 1] == items[i]);
    } else {
        let front = items.drop_last();
        lemma_pick_keeps_all(front, verdicts, wanted, i);
        let before = pick(front, verdicts, wanted);
        let k = choose|k: int| 0 <= k < before.len() && before[k] == front[i];
        assert(picked[k] == items[i]);
    }
}

/// `reqwest::Proxy::all`: a proxy for all traffic through `uri`, or the text
/// of the error with which `reqwest` refused it. Nothing is claimed of the
/// verdict.
#[verifier::external_body]
pub(crate) fn parse_proxy(uri: &str) -> Result<reqwest::Proxy, String> {
    reqwest::Proxy::all(uri).map_err(|e| e.to_string())
}

impl ProxyEndpoint {
    /// The proxy that the endpoint holds: the one that `reqwest` made of its
    /// URI.
    pub closed spec fn made(&self) -> reqwest::Proxy {
        self.proxy
    }

    /// An endpoint from a URI and the proxy that `reqwest` made of it.
    pub fn new(uri: String, proxy: reqwest::Proxy) -> (endpoint: ProxyEndpoint)
        ensures
            endpoint@ == uri@,
            endpoint.made() == proxy,
    {
        ProxyEndpoint { uri, proxy }
    }

    /// The URI that the endpoint was made from.
    pub fn uri(&self) -> (uri: &String)
        ensures
            uri@ == self@,
    {
        &self.uri
    }

    /// The proxy to hand to the HTTP client: the one that the endpoint holds.
    pub fn proxy(&self) -> (proxy: &reqwest::Proxy)
        ensures
            *proxy == self.made(),
    {
        &self.proxy
    }
}

impl ProxySelection {
    /// A selection that holds nothing yet.
    pub fn new() -> (selection: ProxySelection)
        ensures
            selection.accepted@.len() == 0,
            selection.rejected@.len() == 0,
    {
        ProxySelection { accepted: Vec::new(), rejected: Vec::new() }
    }

    /// Files `uri` under the verdict that was reached on it: an accepted proxy
    /// joins the endpoints, a refused one the rejected list with its reason.
    pub fn record(&mut self, uri: &str, verdict: Result<reqwest::Proxy, String>)
        ensures
            verdict is Ok ==> uris_of(final(self).accepted@) == uris_of(old(self).accepted@).push(
                uri@,
            ) && final(self).accepted@.last().made() == verdict->Ok_0 && final(self).rejected@
                == old(self).rejected@,
            verdict is Err ==> final(self).accepted@ == old(self).accepted@ && rejected_uris_of(
                final(self).rejected@,
            ) == rejected_uris_of(old(self).rejected@).push(uri@) && final(self).rejected@.last().reason
                == verdict->Err_0,
    {
        match verdict {
            Ok(proxy) => {
                self.accepted.push(ProxyEndpoint::new(uri.to_owned(), proxy));
            },
            Err(reason) => {
                self.rejected.push(RejectedProxy { uri: uri.to_owned(), reason });
            },
        }
    }
}

/// Validates each of `proxys` with `reqwest` and sorts them into those to use
/// and those to drop. A refused URI is never an error.
pub fn select_proxies(proxys: &Vec<String>) -> (selection: ProxySelection)
    ensures
        exists|verdicts: Seq<bool>|
            #![trigger verdicts.len()]
            {
                &&& verdicts.len() == proxys@.len()
                &&& uris_of(selection.accepted@) == pick(texts_of(proxys@), verdicts, true)
                &&& rejected_uris_of(selection.rejected@) == pick(
                    texts_of(proxys@),
                    verdicts,
                    false,
                )
            },
{
    let mut selection = ProxySelection::new();
    let ghost mut verdicts: Seq<bool> = Seq::empty();
    let mut i: usize = 0;
    assert(uris_of(selection.accepted@) == Seq::<Seq<char>>::empty());
    assert(rejected_uris_of(selection.rejected@) == Seq::<Seq<char>>::empty());
    while i < proxys.len()
        invariant
            i <= proxys@.len(),
            verdicts.len() == i,
            uris_of(selection.accepted@) == pick(texts_of(proxys@).take(i as int), verdicts, true),
            rejected_uris_of(selection.rejected@) == pick(
                texts_of(proxys@).take(i as int),
                verdicts,
                false,
            ),
        decreases proxys@.len() - i,
    {
        let uri = proxys[i].as_str();
        let verdict = parse_proxy(uri);
        proof {
            let all = texts_of(proxys@);
            let grown = verdicts.push(verdict is Ok);
            assert(all.take(i + 1).drop_last() == all.take(i as int));
            assert(all.take(i + 1).last() == uri@);
            lemma_pick_ignores_later_verdicts(all.take(i as int), verdicts, grown, true);
            lemma_pick_ignores_later_verdicts(all.take(i as int), verdicts, grown, false);
            verdicts = grown;
        }
        selection.record(uri, verdict);
        i = i + 1;
    }
    assert(texts_of(proxys@).take(i as int) == texts_of(proxys@));
    selection
}

/// `pick` reads no verdict beyond the items: a longer list of verdicts that
/// agrees on them picks the same.
pub proof fn lemma_pick_ignores_later_verdicts<T>(
    items: Seq<T>,
    verdicts: Seq<bool>,
    longer: Seq<bool>,
    wanted: bool,
)
    requires
        items.len() <= verdicts.len() <= longer.len(),
        forall|i: int| 0 <= i < items.len() ==> verdicts[i] == longer[i],
    ensures
        pick(items, verdicts, wanted) == pick(items, longer, wanted),
    decreases items.len(),
{
    if items.len() > 0 {
        lemma_pick_ignores_later_verdicts(items.drop_last(), verdicts, longer, wanted);
    }
}

} // verus!
