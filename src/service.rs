//! The catalog's operations: each turns what the store and the disk gave into a reply.

use vstd::prelude::*;
use crate::asset::{asset_path, asset_root, is_safe_segment};
use crate::content::{resolve_hash, resolved, Content};
use crate::envelope::{
    envelope_json, generate_response, Reply, BAD_REQUEST, INTERNAL_SERVER_ERROR, NOT_FOUND,
    NO_CONTENT, OK,
};
use crate::json::{array_json, json_array, json_quoted, quote, views};
use crate::playlist::{light_json, playlist_json, spec_light, GuavaPlaylist};
use crate::store::{Lookup, StoreError};

verus! {

/// The listing of playlists as JSON: the light projection of each, in the order given.
pub open spec fn listing_of(ps: Seq<GuavaPlaylist>) -> Seq<char> {
    array_json(ps.map_values(|p: GuavaPlaylist| light_json(spec_light(p))))
}

/// The light projections of playlists, as one JSON array.
pub fn listing_to_json(ps: &Vec<GuavaPlaylist>) -> (r: String)
    ensures
        r@ == listing_of(ps@),
{
    let mut parts: Vec<String> = Vec::new();
    let n = ps.len();
    let mut i: usize = 0;
    while i < n
        invariant
            n == ps@.len(),
            i <= n,
            views(parts@) =~= ps@.take(i as int).map_values(
                |p: GuavaPlaylist| light_json(spec_light(p)),
            ),
        decreases n - i,
    {
        let light = ps[i].light();
        let part = light.to_json();
        let ghost before = parts@;
        parts.push(part);
        proof {
            assert(light_json(light) == light_json(spec_light(ps@[i as int])));
            assert(views(parts@) =~= views(before).push(part@));
            assert(ps@.take(i as int + 1) =~= ps@.take(i as int).push(ps@[i as int]));
        }
        i = i + 1;
    }
    assert(ps@.take(n as int) =~= ps@);
    json_array(&parts)
}

/// Lists every playlist by name and identifier, leaving each entry list out.
///
/// A store that cannot be read fails the whole request: no partial listing is given.
pub fn list_playlist(scan: Result<Vec<GuavaPlaylist>, StoreError>) -> (r: Reply)
    ensures
        match scan {
            Ok(ps) => r.status == OK && r.body@ == envelope_json(OK, Some(listing_of(ps@)), None),
            Err(_) => r.status == INTERNAL_SERVER_ERROR && r.body@ == envelope_json(
                INTERNAL_SERVER_ERROR,
                None,
                None,
            ),
        },
{
    match scan {
        Ok(ps) => {
            let listing = listing_to_json(&ps);
            generate_response(OK, Some(listing), None)
        },
        Err(_) => generate_response(INTERNAL_SERVER_ERROR, None, None),
    }
}

/// The listing depends on names and identifiers alone: two lists of playlists
/// that agree on those give the same listing, whatever entries each one holds.
pub proof fn lemma_listing_ignores_content(ps: Seq<GuavaPlaylist>, qs: Seq<GuavaPlaylist>)
    requires
        ps.len() == qs.len(),
        forall|i: int|
            0 <= i < ps.len() ==> #[trigger] ps[i].name@ == qs[i].name@ && ps[i].identifier@
                == qs[i].identifier@,
    ensures
        listing_of(ps) == listing_of(qs),
{
    let f = |p: GuavaPlaylist| light_json(spec_light(p));
    assert forall|i: int| 0 <= i < ps.len() implies #[trigger] f(ps[i]) == f(qs[i]) by {
        assert(ps[i].name@ == qs[i].name@);
    }
    assert(ps.map_values(f) =~= qs.map_values(f));
}

/// The reply to a request for one playlist's full document.
///
/// A playlist that the store does not hold is no error: the reply is a success with
/// no content and an empty result. A store that cannot be read gives an internal error.
pub fn playlist_content(identifier: &String, found: Lookup<GuavaPlaylist>) -> (r: Reply)
    ensures
        match found {
            Lookup::Found(p) => if p.identifier@ == identifier@ {
                r.status == OK && r.body@ == envelope_json(OK, Some(playlist_json(p)), None)
            } else {
                r.status == NO_CONTENT && r.body@ == envelope_json(NO_CONTENT, None, None)
            },
            Lookup::Missing => r.status == NO_CONTENT && r.body@ == envelope_json(
                NO_CONTENT,
                None,
                None,
            ),
            Lookup::Failed => r.status == INTERNAL_SERVER_ERROR && r.body@ == envelope_json(
                INTERNAL_SERVER_ERROR,
                None,
                None,
            ),
        },
{
    match found {
        Lookup::Found(p) => {
            if p.identifier == *identifier {
                let doc = p.to_json();
                generate_response(OK, Some(doc), None)
            } else {
                generate_response(NO_CONTENT, None, None)
            }
        },
        Lookup::Missing => generate_response(NO_CONTENT, None, None),
        Lookup::Failed => generate_response(INTERNAL_SERVER_ERROR, None, None),
    }
}

/// The reply to a request for the storage hash of content `id`: the hash as a JSON
/// string, or not found, whether no record matched or the store could not be read.
pub fn get_hash_of_content(id: &String, found: Lookup<Content>) -> (r: Reply)
    ensures
        match resolved(id@, found) {
            Ok(h) => r.status == OK && r.body@ == envelope_json(OK, Some(json_quoted(h)), None),
            Err(_) => r.status == NOT_FOUND && r.body@ == envelope_json(
                NOT_FOUND,
                None,
                Some("content not found"@),
            ),
        },
{
    match resolve_hash(id, found) {
        Ok(hash) => {
            let text = quote(hash.as_str());
            generate_response(OK, Some(text), None)
        },
        Err(_) => generate_response(NOT_FOUND, None, Some(String::from_str("content not found"))),
    }
}

/// What to do with a download request.
#[derive(Clone, Debug)]
pub enum Download {
    /// Stream the raw bytes of the file at this path, outside the envelope.
    Stream(String),
    /// Send this structured reply instead.
    Reply(Reply),
}

/// The reply to a download whose asset file cannot be opened.
pub fn file_not_found() -> (r: Reply)
    ensures
        r.status == NOT_FOUND,
        r.body@ == envelope_json(NOT_FOUND, None, Some("file not found"@)),
{
    generate_response(NOT_FOUND, None, Some(String::from_str("file not found")))
}

/// Decides a download of content `id`: stream the asset stored under its hash, or
/// reply that the file is not found, where the identifier does not resolve or its
/// hash could leave the asset root.
pub fn download_asset(id: &String, found: Lookup<Content>) -> (r: Download)
    ensures
        match resolved(id@, found) {
            Ok(h) => if is_safe_segment(h) {
                r matches Download::Stream(p) && p@ == asset_root() + h
            } else {
                r matches Download::Reply(rep) && rep.status == NOT_FOUND && rep.body@
                    == envelope_json(NOT_FOUND, None, Some("file not found"@))
            },
            Err(_) => r matches Download::Reply(rep) && rep.status == NOT_FOUND && rep.body@
                == envelope_json(NOT_FOUND, None, Some("file not found"@)),
        },
{
    match resolve_hash(id, found) {
        Ok(hash) => match asset_path(&hash) {
            Some(path) => Download::Stream(path),
            None => Download::Reply(file_not_found()),
        },
        Err(_) => Download::Reply(file_not_found()),
    }
}

/// The reply to a request that lacks a required path parameter.
pub fn missing_parameter() -> (r: Reply)
    ensures
        r.status == BAD_REQUEST,
        r.body@ == envelope_json(BAD_REQUEST, None, Some("missing path parameter"@)),
{
    generate_response(BAD_REQUEST, None, Some(String::from_str("missing path parameter")))
}

} // verus!
