//! MusicBrainz artist relations: which relations are shown, under what
//! label, and where they are fetched from.
use vstd::prelude::*;
use crate::text::{chars_of, equals_lit, push_str, string_from};

verus! {

/// A related artist as shown: its MusicBrainz id, its name, and how it is
/// related.
#[derive(Debug)]
pub struct ArtistRelation {
    pub mbid: String,
    pub name: String,
    pub relation_label: String,
}

pub struct ArtistRelationView {
    pub mbid: Seq<char>,
    pub name: Seq<char>,
    pub relation_label: Seq<char>,
}

impl View for ArtistRelation {
    type V = ArtistRelationView;

    open spec fn view(&self) -> ArtistRelationView {
        ArtistRelationView { mbid: self.mbid@, name: self.name@, relation_label: self.relation_label@ }
    }
}

/// The artist a relation points to.
pub struct ArtistRef {
    pub id: String,
    pub name: String,
}

/// One relation of an artist as MusicBrainz lists it.
pub struct Relation {
    pub rel_type: String,
    pub target_type: String,
    pub artist: Option<ArtistRef>,
}

pub struct RelationView {
    pub rel_type: Seq<char>,
    pub target_type: Seq<char>,
    pub artist: Option<(Seq<char>, Seq<char>)>,
}

impl View for Relation {
    type V = RelationView;

    open spec fn view(&self) -> RelationView {
        RelationView {
            rel_type: self.rel_type@,
            target_type: self.target_type@,
            artist: match self.artist {
                Some(a) => Some((a.id@, a.name@)),
                None => None,
            },
        }
    }
}

pub open spec fn relations_view(v: Seq<Relation>) -> Seq<RelationView> {
    v.map_values(|r: Relation| r@)
}

pub open spec fn artist_relations_view(v: Seq<ArtistRelation>) -> Seq<ArtistRelationView> {
    v.map_values(|r: ArtistRelation| r@)
}

/// The label shown for a relation type; the types not listed are not shown.
pub open spec fn relation_label_spec(rel_type: Seq<char>) -> Option<Seq<char>> {
    if rel_type == "collaboration"@ {
        Some("collaborated with"@)
    } else if rel_type == "member of band"@ {
        Some("member of band"@)
    } else if rel_type == "supporting musician"@ || rel_type == "instrumental supporting musician"@
        || rel_type == "vocal supporting musician"@ {
        Some("session musician for"@)
    } else if rel_type == "conductor"@ {
        Some("conducted by"@)
    } else {
        None
    }
}

pub fn relation_label(rel_type: &str) -> (r: Option<&'static str>)
    ensures
        match r {
            Some(l) => relation_label_spec(rel_type@) == Some(l@),
            None => relation_label_spec(rel_type@) is None,
        },
{
    let t = chars_of(rel_type);
    if equals_lit(&t, "collaboration") {
        Some("collaborated with")
    } else if equals_lit(&t, "member of band") {
        Some("member of band")
    } else if equals_lit(&t, "supporting musician") || equals_lit(&t, "instrumental supporting musician")
        || equals_lit(&t, "vocal supporting musician") {
        Some("session musician for")
    } else if equals_lit(&t, "conductor") {
        Some("conducted by")
    } else {
        None
    }
}

/// What one relation shows: nothing unless it points to an artist that is
/// given, under a known type.
pub open spec fn shown_relation(r: RelationView) -> Option<ArtistRelationView> {
    if r.target_type != "artist"@ {
        None
    } else {
        match relation_label_spec(r.rel_type) {
            None => None,
            Some(label) => match r.artist {
                None => None,
                Some((id, name)) => Some(ArtistRelationView { mbid: id, name, relation_label: label }),
            },
        }
    }
}

/// The related artists shown, in the order MusicBrainz lists them.
pub open spec fn shown_relations(rs: Seq<RelationView>) -> Seq<ArtistRelationView>
    decreases rs.len(),
{
    if rs.len() == 0 {
        Seq::empty()
    } else {
        let rest = shown_relations(rs.drop_last());
        match shown_relation(rs.last()) {
            Some(a) => rest.push(a),
            None => rest,
        }
    }
}

fn show_relation(r: Relation) -> (a: Option<ArtistRelation>)
    ensures
        match a {
            Some(x) => shown_relation(r@) == Some(x@),
            None => shown_relation(r@) is None,
        },
{
    let target = chars_of(r.target_type.as_str());
    if !equals_lit(&target, "artist") {
        return None;
    }
    match relation_label(r.rel_type.as_str()) {
        None => None,
        Some(label) => match r.artist {
            None => None,
            Some(a) => Some(ArtistRelation { mbid: a.id, name: a.name, relation_label: string_from(label) }),
        },
    }
}

/// The related artists to show from an artist's relations: those that
/// point to an artist, under a known type, in order.
pub fn artist_relations(relations: Vec<Relation>) -> (r: Vec<ArtistRelation>)
    ensures
        artist_relations_view(r@) == shown_relations(relations_view(relations@)),
{
    let ghost all = relations@;
    let mut out: Vec<ArtistRelation> = Vec::new();
    for rel in it: relations
        invariant
            it.seq() == all,
            artist_relations_view(out@) == shown_relations(relations_view(all.take(it.index() as int))),
    {
        let ghost k = it.index() as int;
        let ghost before = artist_relations_view(out@);
        proof {
            assert(relations_view(all.take(k + 1)).drop_last() =~= relations_view(all.take(k)));
            assert(relations_view(all.take(k + 1)).last() == rel@);
        }
        match show_relation(rel) {
            Some(a) => {
                out.push(a);
                proof {
                    assert(artist_relations_view(out@) =~= before.push(a@));
                }
            },
            None => {},
        }
    }
    proof {
        assert(all.take(all.len() as int) =~= all);
    }
    out
}

/// The MusicBrainz URL with an artist's relations to other artists.
pub open spec fn artist_url_text(mbid: Seq<char>) -> Seq<char> {
    "https://musicbrainz.org/ws/2/artist/"@ + mbid + "?inc=artist-rels&fmt=json"@
}

pub fn artist_url(mbid: &str) -> (r: String)
    ensures
        r@ == artist_url_text(mbid@),
{
    let mut r = string_from("https://musicbrainz.org/ws/2/artist/");
    push_str(&mut r, mbid);
    push_str(&mut r, "?inc=artist-rels&fmt=json");
    r
}

} // verus!
