//! The route map: for each input mint, the output mints that it can be
//! swapped into. The service sends it compressed: a table of mints, and
//! lists of indices into the table.

use vstd::prelude::*;
use crate::collect::{
    collected, lemma_collected_failure_stays, lemma_collected_next, lemma_collected_ok,
};
use crate::error::ClientError;
use crate::field_pubkey::vec::{pubkey_views, pubkeys_of};
use crate::pubkey::Pubkey;
use crate::text::{decimal, push_decimal, texts};

verus! {

/// One entry of the compressed map: the index of an input mint, and the
/// indices of the output mints that it reaches.
#[derive(Clone, Debug, PartialEq, Eq)]
pub struct IndexedRoute {
    pub from: usize,
    pub to: Vec<usize>,
}

/// One entry of the route map: an input mint, and the output mints that it
/// reaches.
#[derive(Clone, Debug, PartialEq, Eq)]
pub struct Route {
    pub input_mint: Pubkey,
    pub output_mints: Vec<Pubkey>,
}

/// What a `Route` holds: the bytes of its mints.
pub struct RouteView {
    pub input_mint: Seq<u8>,
    pub output_mints: Seq<Seq<u8>>,
}

impl View for Route {
    type V = RouteView;

    open spec fn view(&self) -> RouteView {
        RouteView { input_mint: self.input_mint@, output_mints: pubkey_views(self.output_mints@) }
    }
}

/// What a sequence of routes holds.
pub open spec fn route_views(routes: Seq<Route>) -> Seq<RouteView> {
    routes.map_values(|route: Route| route@)
}

/// The mint at `index` of the table, or the index where it points outside
/// the table.
pub open spec fn mint_at(mint_keys: Seq<Seq<u8>>, index: usize) -> Result<Seq<u8>, usize> {
    if index < mint_keys.len() {
        Ok(mint_keys[index as int])
    } else {
        Err(index)
    }
}

/// What looking up each index of a list gives.
pub open spec fn mints_each(mint_keys: Seq<Seq<u8>>, indices: Seq<usize>) -> Seq<
    Result<Seq<u8>, usize>,
> {
    indices.map_values(|index: usize| mint_at(mint_keys, index))
}

/// The mints at the indices of a list, in order, or the first index that
/// points outside the table.
pub open spec fn mints_at(mint_keys: Seq<Seq<u8>>, indices: Seq<usize>) -> Result<
    Seq<Seq<u8>>,
    usize,
> {
    collected(mints_each(mint_keys, indices))
}

/// The route that an entry stands for: the mint at its input index, and the
/// mints at its output indices; or the first of these indices that points
/// outside the table, the input index coming first.
pub open spec fn route_of(mint_keys: Seq<Seq<u8>>, entry: IndexedRoute) -> Result<RouteView, usize> {
    match mint_at(mint_keys, entry.from) {
        Err(index) => Err(index),
        Ok(input_mint) => match mints_at(mint_keys, entry.to@) {
            Err(index) => Err(index),
            Ok(output_mints) => Ok(RouteView { input_mint, output_mints }),
        },
    }
}

/// What expanding each entry of the compressed map gives.
pub open spec fn routes_each(mint_keys: Seq<Seq<u8>>, indexed: Seq<IndexedRoute>) -> Seq<
    Result<RouteView, usize>,
> {
    indexed.map_values(|entry: IndexedRoute| route_of(mint_keys, entry))
}

/// The route map that the compressed map stands for: one route for each
/// entry, in order; or the first index, in the order of the entries, that
/// points outside the table.
pub open spec fn expanded(mint_keys: Seq<Seq<u8>>, indexed: Seq<IndexedRoute>) -> Result<
    Seq<RouteView>,
    usize,
> {
    collected(routes_each(mint_keys, indexed))
}

/// Whether every index of the entry points into a table of `count` mints.
pub open spec fn entry_in_range(entry: IndexedRoute, count: nat) -> bool {
    entry.from < count && forall|i: int|
        0 <= i < entry.to@.len() ==> #[trigger] entry.to@[i] < count
}

/// Whether every index of the compressed map points into a table of `count`
/// mints.
pub open spec fn in_range(indexed: Seq<IndexedRoute>, count: nat) -> bool {
    forall|e: int| 0 <= e < indexed.len() ==> entry_in_range(#[trigger] indexed[e], count)
}

/// An entry stands for a route exactly where each of its indices points into
/// the table.
pub proof fn lemma_route_of_ok(mint_keys: Seq<Seq<u8>>, entry: IndexedRoute)
    ensures
        route_of(mint_keys, entry) is Ok <==> entry_in_range(entry, mint_keys.len()),
{
    let results = mints_each(mint_keys, entry.to@);
    lemma_collected_ok(results);
    if entry_in_range(entry, mint_keys.len()) {
        assert forall|i: int| 0 <= i < results.len() implies (#[trigger] results[i]) is Ok by {
            assert(entry.to@[i] < mint_keys.len());
        }
    }
    if route_of(mint_keys, entry) is Ok {
        assert forall|i: int| 0 <= i < entry.to@.len() implies #[trigger] entry.to@[i]
            < mint_keys.len() by {
            assert(results[i] is Ok);
        }
    }
}

/// The compressed map expands exactly where each of its indices points into
/// the table, and then to as many routes as it has entries.
pub proof fn lemma_expanded_ok(mint_keys: Seq<Seq<u8>>, indexed: Seq<IndexedRoute>)
    ensures
        expanded(mint_keys, indexed) is Ok <==> in_range(indexed, mint_keys.len()),
        expanded(mint_keys, indexed) matches Ok(routes) ==> routes.len() == indexed.len(),
{
    let results = routes_each(mint_keys, indexed);
    lemma_collected_ok(results);
    if in_range(indexed, mint_keys.len()) {
        assert forall|e: int| 0 <= e < results.len() implies (#[trigger] results[e]) is Ok by {
            lemma_route_of_ok(mint_keys, indexed[e]);
        }
    }
    if expanded(mint_keys, indexed) is Ok {
        assert forall|e: int| 0 <= e < indexed.len() implies entry_in_range(
            #[trigger] indexed[e],
            mint_keys.len(),
        ) by {
            assert(results[e] is Ok);
            lemma_route_of_ok(mint_keys, indexed[e]);
        }
    }
}

/// The message for an index that points outside the table of mints.
pub open spec fn invalid_index_message(index: usize) -> Seq<char> {
    "Invalid index in response: "@ + decimal(index as nat)
}

fn invalid_index(index: usize) -> (error: ClientError)
    ensures
        error matches ClientError::JupiterApi(message) && message@ == invalid_index_message(
            index,
        ),
{
    let mut message = String::from_str("Invalid index in response: ");
    push_decimal(&mut message, index as u64);
    ClientError::JupiterApi(message)
}

/// The mints at the given indices of the table, in order; or the first index
/// that points outside the table.
pub fn lookup_all(mint_keys: &Vec<Pubkey>, indices: &Vec<usize>) -> (r: Result<Vec<Pubkey>, usize>)
    ensures
        match mints_at(pubkey_views(mint_keys@), indices@) {
            Ok(mints) => r matches Ok(found) && pubkey_views(found@) == mints,
            Err(index) => r == Err::<Vec<Pubkey>, usize>(index),
        },
{
    let ghost results = mints_each(pubkey_views(mint_keys@), indices@);
    let mut mints: Vec<Pubkey> = Vec::new();
    let mut i: usize = 0;
    assert(pubkey_views(mints@) =~= Seq::<Seq<u8>>::empty());
    while i < indices.len()
        invariant
            0 <= i <= indices@.len(),
            results == mints_each(pubkey_views(mint_keys@), indices@),
            collected(results.take(i as int)) == Ok::<Seq<Seq<u8>>, usize>(pubkey_views(mints@)),
        decreases indices@.len() - i,
    {
        proof {
            lemma_collected_next(results, i as int);
        }
        let index: usize = indices[i];
        if index >= mint_keys.len() {
            proof {
                lemma_collected_failure_stays(results, i + 1);
            }
            return Err(index);
        }
        let mint = mint_keys[index];
        assert(pubkey_views(mints@.push(mint)) =~= pubkey_views(mints@).push(mint@));
        mints.push(mint);
        i = i + 1;
    }
    assert(results.take(i as int) =~= results);
    Ok(mints)
}

/// Expands the compressed map over the table `mint_keys`, as `expanded`
/// says. An index that points outside the table gives a `JupiterApi` error
/// that names it.
pub fn expand(mint_keys: &Vec<Pubkey>, indexed: &Vec<IndexedRoute>) -> (r: Result<
    Vec<Route>,
    ClientError,
>)
    ensures
        match expanded(pubkey_views(mint_keys@), indexed@) {
            Ok(routes) => r matches Ok(found) && route_views(found@) == routes,
            Err(index) => r matches Err(ClientError::JupiterApi(message)) && message@
                == invalid_index_message(index),
        },
{
    let ghost results = routes_each(pubkey_views(mint_keys@), indexed@);
    let mut routes: Vec<Route> = Vec::new();
    let mut e: usize = 0;
    assert(route_views(routes@) =~= Seq::<RouteView>::empty());
    while e < indexed.len()
        invariant
            0 <= e <= indexed@.len(),
            results == routes_each(pubkey_views(mint_keys@), indexed@),
            collected(results.take(e as int)) == Ok::<Seq<RouteView>, usize>(route_views(routes@)),
        decreases indexed@.len() - e,
    {
        proof {
            lemma_collected_next(results, e as int);
        }
        let entry = &indexed[e];
        if entry.from >= mint_keys.len() {
            proof {
                lemma_collected_failure_stays(results, e + 1);
            }
            return Err(invalid_index(entry.from));
        }
        match lookup_all(mint_keys, &entry.to) {
            Ok(output_mints) => {
                let route = Route { input_mint: mint_keys[entry.from], output_mints };
                assert(route_views(routes@.push(route)) =~= route_views(routes@).push(route@));
                routes.push(route);
            },
            Err(index) => {
                proof {
                    lemma_collected_failure_stays(results, e + 1);
                }
                return Err(invalid_index(index));
            },
        }
        e = e + 1;
    }
    assert(results.take(e as int) =~= results);
    Ok(routes)
}

/// The route map, from the table of mints as the service writes it and the
/// compressed map. Where a mint is no address, the result is `ParsePubkey`
/// with the error of the first that is none; the indices are looked at after
/// that, as `expand` says.
pub fn route_map_from_response(mint_keys: &Vec<String>, indexed: &Vec<IndexedRoute>) -> (r: Result<
    Vec<Route>,
    ClientError,
>)
    ensures
        match pubkeys_of(texts(mint_keys@)) {
            Err(e) => r matches Err(ClientError::ParsePubkey(cause)) && cause == e,
            Ok(keys) => match expanded(keys, indexed@) {
                Ok(routes) => r matches Ok(found) && route_views(found@) == routes,
                Err(index) => r matches Err(ClientError::JupiterApi(message)) && message@
                    == invalid_index_message(index),
            },
        },
{
    match crate::field_pubkey::vec::deserialize(mint_keys) {
        Err(e) => Err(ClientError::ParsePubkey(e)),
        Ok(table) => expand(&table, indexed),
    }
}

} // verus!
