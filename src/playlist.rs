//! Playlists, their entries, and the light projection used for listing.

use vstd::prelude::*;
use crate::content::GuavaContentType;
use crate::json::{json_quoted, quote, views, array_json, json_array};

verus! {

/// One entry of a playlist: a display name, a media kind and a content identifier.
#[derive(Clone, Debug)]
pub struct PlaylistContent {
    pub name: String,
    pub content_type: GuavaContentType,
    pub content_id: String,
}

/// A named, ordered collection of content entries, looked up by `identifier`.
///
/// `content` is `None` where the stored document holds no entry list.
#[derive(Clone, Debug)]
pub struct GuavaPlaylist {
    pub name: String,
    pub identifier: String,
    pub content: Option<Vec<PlaylistContent>>,
}

/// The projection of a playlist used for discovery: name and identifier only.
#[derive(Clone, Debug)]
pub struct PlaylistLight {
    pub name: String,
    pub identifier: String,
}

/// The ordinal of a media kind as JSON text.
pub open spec fn ordinal_json(t: GuavaContentType) -> Seq<char> {
    match t {
        GuavaContentType::Unspecified => "0"@,
        GuavaContentType::Sound => "1"@,
        GuavaContentType::Video => "2"@,
    }
}

/// An entry as a JSON object.
pub open spec fn entry_json(e: PlaylistContent) -> Seq<char> {
    "{\"name\":"@ + json_quoted(e.name@) + ",\"content_type\":"@ + ordinal_json(e.content_type)
        + ",\"content_id\":"@ + json_quoted(e.content_id@) + "}"@
}

/// A list of entries as a JSON array, in their stored order.
pub open spec fn entries_json(es: Seq<PlaylistContent>) -> Seq<char> {
    array_json(es.map_values(|e: PlaylistContent| entry_json(e)))
}

/// A full playlist document as a JSON object; a missing entry list is `null`.
pub open spec fn playlist_json(p: GuavaPlaylist) -> Seq<char> {
    "{\"name\":"@ + json_quoted(p.name@) + ",\"identifier\":"@ + json_quoted(p.identifier@)
        + ",\"content\":"@ + match p.content {
        Some(v) => entries_json(v@),
        None => "null"@,
    } + "}"@
}

/// A light projection as a JSON object: the keys `name` and `identifier`, nothing else.
pub open spec fn light_json(l: PlaylistLight) -> Seq<char> {
    "{\"name\":"@ + json_quoted(l.name@) + ",\"identifier\":"@ + json_quoted(l.identifier@) + "}"@
}

/// The light projections of playlists as a JSON array, in the given order.
pub open spec fn listing_json(ls: Seq<PlaylistLight>) -> Seq<char> {
    array_json(ls.map_values(|l: PlaylistLight| light_json(l)))
}

/// The light projection of a playlist.
pub open spec fn spec_light(p: GuavaPlaylist) -> PlaylistLight {
    PlaylistLight { name: p.name, identifier: p.identifier }
}

fn ordinal_text(t: GuavaContentType) -> (r: &'static str)
    ensures
        r@ == ordinal_json(t),
{
    match t {
        GuavaContentType::Unspecified => "0",
        GuavaContentType::Sound => "1",
        GuavaContentType::Video => "2",
    }
}

impl PlaylistContent {
    /// This entry as a JSON object.
    pub fn to_json(&self) -> (r: String)
        ensures
            r@ == entry_json(*self),
    {
        let mut r = String::from_str("{\"name\":");
        let name = quote(self.name.as_str());
        r.append(name.as_str());
        r.append(",\"content_type\":");
        r.append(ordinal_text(self.content_type));
        r.append(",\"content_id\":");
        let id = quote(self.content_id.as_str());
        r.append(id.as_str());
        r.append("}");
        r
    }
}

/// The entries as a JSON array, in the given order.
pub fn entries_to_json(es: &Vec<PlaylistContent>) -> (r: String)
    ensures
        r@ == entries_json(es@),
{
    let mut parts: Vec<String> = Vec::new();
    let n = es.len();
    let mut i: usize = 0;
    while i < n
        invariant
            n == es@.len(),
            i <= n,
            views(parts@) =~= es@.take(i as int).map_values(|e: PlaylistContent| entry_json(e)),
        decreases n - i,
    {
        let part = es[i].to_json();
        let ghost before = parts@;
        parts.push(part);
        proof {
            assert(views(parts@) =~= views(before).push(part@));
            assert(es@.take(i as int + 1) =~= es@.take(i as int).push(es@[i as int]));
        }
        i = i + 1;
    }
    assert(es@.take(n as int) =~= es@);
    json_array(&parts)
}

impl GuavaPlaylist {
    /// The light projection of this playlist: its entry list is left out.
    pub fn light(&self) -> (r: PlaylistLight)
        ensures
            r@ == spec_light(*self)@,
    {
        PlaylistLight { name: self.name.clone(), identifier: self.identifier.clone() }
    }

    /// This playlist as a JSON object, its entries in stored order.
    pub fn to_json(&self) -> (r: String)
        ensures
            r@ == playlist_json(*self),
    {
        let mut r = String::from_str("{\"name\":");
        let name = quote(self.name.as_str());
        r.append(name.as_str());
        r.append(",\"identifier\":");
        let ident = quote(self.identifier.as_str());
        r.append(ident.as_str());
        r.append(",\"content\":");
        match &self.content {
            Some(v) => {
                let es = entries_to_json(v);
                r.append(es.as_str());
            },
            None => {
                r.append("null");
            },
        }
        r.append("}");
        r
    }
}

impl View for PlaylistLight {
    type V = (Seq<char>, Seq<char>);

    /// Name and identifier.
    open spec fn view(&self) -> (Seq<char>, Seq<char>) {
        (self.name@, self.identifier@)
    }
}

impl PlaylistLight {
    /// This projection as a JSON object.
    pub fn to_json(&self) -> (r: String)
        ensures
            r@ == light_json(*self),
    {
        let mut r = String::from_str("{\"name\":");
        let name = quote(self.name.as_str());
        r.append(name.as_str());
        r.append(",\"identifier\":");
        let ident = quote(self.identifier.as_str());
        r.append(ident.as_str());
        r.append("}");
        r
    }
}

} // verus!
