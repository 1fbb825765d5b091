use koditerm::musicbrainz::{artist_relations, artist_url, relation_label, ArtistRef, Relation};

fn relation(rel_type: &str, target: &str, artist: Option<(&str, &str)>) -> Relation {
    Relation {
        rel_type: rel_type.to_string(),
        target_type: target.to_string(),
        artist: artist.map(|(id, name)| ArtistRef { id: id.to_string(), name: name.to_string() }),
    }
}

#[test]
fn relation_types_and_their_labels() {
    assert_eq!(relation_label("collaboration"), Some("collaborated with"));
    assert_eq!(relation_label("member of band"), Some("member of band"));
    assert_eq!(relation_label("supporting musician"), Some("session musician for"));
    assert_eq!(relation_label("instrumental supporting musician"), Some("session musician for"));
    assert_eq!(relation_label("vocal supporting musician"), Some("session musician for"));
    assert_eq!(relation_label("conductor"), Some("conducted by"));
    assert_eq!(relation_label("married"), None);
    assert_eq!(relation_label("Conductor"), None);
}

#[test]
fn only_known_relations_to_given_artists_are_kept_in_order() {
    let rels = vec![
        relation("member of band", "artist", Some(("id-1", "The Band"))),
        relation("collaboration", "label", Some(("id-2", "Label"))),
        relation("married", "artist", Some(("id-3", "Spouse"))),
        relation("conductor", "artist", None),
        relation("vocal supporting musician", "artist", Some(("id-4", "Singer"))),
    ];
    let shown = artist_relations(rels);
    assert_eq!(shown.len(), 2);
    assert_eq!(shown[0].mbid, "id-1");
    assert_eq!(shown[0].name, "The Band");
    assert_eq!(shown[0].relation_label, "member of band");
    assert_eq!(shown[1].mbid, "id-4");
    assert_eq!(shown[1].name, "Singer");
    assert_eq!(shown[1].relation_label, "session musician for");
}

#[test]
fn no_relations_show_nothing() {
    assert!(artist_relations(Vec::new()).is_empty());
}

#[test]
fn relations_url() {
    assert_eq!(
        artist_url("b10bbbfc-cf9e-42e0-be17-e2c3e1d2600d"),
        "https://musicbrainz.org/ws/2/artist/b10bbbfc-cf9e-42e0-be17-e2c3e1d2600d?inc=artist-rels&fmt=json"
    );
}
