use nfo2tags::{Attribute, Event, SimpleTag, TagsError, Translation, convert_to_mkv_tags, render_tags, translate};

const HEAD: &str = "<?xml version=\"1.0\" encoding=\"UTF-8\"?>\n<Tags>\n  <Tag>\n";
const TAIL: &str = "  </Tag>\n</Tags>\n";

fn simple(name: &str, value: &str) -> String {
    format!("    <Simple>\n      <Name>{}</Name>\n      <String>{}</String>\n    </Simple>\n", name, value)
}

fn document(entries: &[(&str, &str)]) -> String {
    let mut s = String::from(HEAD);
    for (n, v) in entries {
        s.push_str(&simple(n, v));
    }
    s.push_str(TAIL);
    s
}

fn convert(source: &str) -> String {
    convert_to_mkv_tags(source.as_bytes()).expect("well-formed source")
}

fn tag(name: &str, value: &str) -> SimpleTag {
    SimpleTag { name: name.to_string(), value: value.to_string() }
}

#[test]
fn same_source_gives_same_document() {
    let source = "<?xml version=\"1.0\"?>\n<movie>\n  <title>Heat</title>\n  <plot>Cops &amp; robbers</plot>\n  <director>Michael Mann</director>\n  <actor><name>Al Pacino</name><role>Hanna</role></actor>\n</movie>\n";
    let first = convert(source);
    let second = convert(&source.to_string());
    assert_eq!(first, second);
    assert_eq!(
        first,
        document(&[
            ("TITLE", "Heat"),
            ("DESCRIPTION", "Cops &amp; robbers"),
            ("Director", "Michael Mann"),
            ("Actor", "Al Pacino"),
        ])
    );
}

#[test]
fn directors_keep_source_order() {
    let out = convert("<movie><director>A</director><director>B</director></movie>");
    assert_eq!(out, document(&[("Director", "A,B")]));
}

#[test]
fn deferred_fields_follow_direct_fields() {
    let out = convert("<movie><plot>P</plot><genre>G</genre></movie>");
    assert_eq!(out, document(&[("GENRE", "G"), ("DESCRIPTION", "P")]));
    assert!(out.find("GENRE").unwrap() < out.find("DESCRIPTION").unwrap());
}

#[test]
fn movie_id_becomes_imdb() {
    let out = convert("<movie><id>tt123</id></movie>");
    assert_eq!(out, document(&[("IMDB", "tt123")]));
}

#[test]
fn episode_id_is_suppressed() {
    let out = convert("<episodedetails><id>tt123</id></episodedetails>");
    assert_eq!(out, document(&[]));
    assert!(!out.contains("IMDB"));
}

#[test]
fn uniqueid_of_other_type_is_dropped() {
    let out = convert("<movie><uniqueid type=\"tmdb\">999</uniqueid></movie>");
    assert_eq!(out, document(&[]));
}

#[test]
fn uniqueid_imdb_is_written_at_root_close() {
    let out = convert("<movie><uniqueid type=\"imdb\">tt999</uniqueid><title>T</title></movie>");
    assert_eq!(out, document(&[("TITLE", "T"), ("IMDB", "tt999")]));
}

#[test]
fn uniqueid_without_type_is_dropped() {
    let out = convert("<episodedetails><uniqueid>tt1</uniqueid></episodedetails>");
    assert_eq!(out, document(&[]));
}

#[test]
fn id_and_uniqueid_both_give_imdb_in_a_movie() {
    let out = convert("<movie><id>tt1</id><uniqueid type=\"imdb\">tt2</uniqueid></movie>");
    assert_eq!(out, document(&[("IMDB", "tt1"), ("IMDB", "tt2")]));
}

#[test]
fn no_actor_gives_no_actor_entry() {
    let out = convert("<movie><title>Solo</title><credits>W</credits></movie>");
    assert_eq!(out, document(&[("TITLE", "Solo"), ("WRITER", "W")]));
    assert!(!out.contains("Actor"));
}

#[test]
fn set_name_is_not_an_actor_name() {
    let out = convert(
        "<movie><set><name>Collection X</name><overview>All of them</overview></set><actor><name>Jane</name></actor></movie>",
    );
    assert_eq!(
        out,
        document(&[("Collection Name", "Collection X"), ("Collection Overview", "All of them"), ("Actor", "Jane")])
    );
}

#[test]
fn actors_joined_in_order_and_empty_names_skipped() {
    let out = convert(
        "<movie><actor><name>Ann</name></actor><actor><role>Extra</role></actor><actor><name>Bob</name></actor></movie>",
    );
    assert_eq!(out, document(&[("Actor", "Ann,Bob")]));
}

#[test]
fn flush_order_is_fixed() {
    let out = convert(
        "<episodedetails><actor><name>C</name></actor><credits>W</credits><director>D</director><set><overview>O</overview><name>N</name></set><outline>S</outline><plot>P</plot><uniqueid type=\"imdb\">tt5</uniqueid><showtitle>Show</showtitle><season>2</season><episode>7</episode></episodedetails>",
    );
    assert_eq!(
        out,
        document(&[
            ("SUBTITLE", "Show"),
            ("SEASON", "2"),
            ("EPISODE", "7"),
            ("IMDB", "tt5"),
            ("DESCRIPTION", "P"),
            ("SUMMARY", "S"),
            ("Collection Name", "N"),
            ("Collection Overview", "O"),
            ("Director", "D"),
            ("WRITER", "W"),
            ("Actor", "C"),
        ])
    );
}

#[test]
fn every_direct_field_is_mapped() {
    let out = convert(
        "<movie><originaltitle>a</originaltitle><year>b</year><tagline>c</tagline><runtime>d</runtime><mpaa>e</mpaa><certification>f</certification><tmdbid>g</tmdbid><country>h</country><premiered>i</premiered><studio>j</studio><unknown>k</unknown></movie>",
    );
    assert_eq!(
        out,
        document(&[
            ("ORIGINALTITLE", "a"),
            ("YEAR", "b"),
            ("TAGLINE", "c"),
            ("RUNTIME", "d"),
            ("MPAA", "e"),
            ("CERTIFICATION", "f"),
            ("TMDB", "g"),
            ("COUNTRY", "h"),
            ("PREMIERED", "i"),
            ("STUDIO", "j"),
        ])
    );
}

#[test]
fn markup_in_values_is_escaped() {
    let out = convert("<movie><title>A &amp; B &lt;C&gt;</title></movie>");
    assert_eq!(out, document(&[("TITLE", "A &amp; B &lt;C&gt;")]));
}

#[test]
fn truncated_source_is_a_parse_error() {
    let r = convert_to_mkv_tags("<movie><title>Unfinished</title>".as_bytes());
    assert!(matches!(r, Err(TagsError::Parse(_))));
    let r = convert_to_mkv_tags("<movie><title>Bad</movie>".as_bytes());
    assert!(matches!(r, Err(TagsError::Parse(_))));
}

#[test]
fn empty_document_has_empty_tag() {
    assert_eq!(render_tags(&Vec::new()), document(&[]));
}

#[test]
fn render_escapes_names_and_values() {
    let out = render_tags(&vec![tag("X&Y", "1 < 2 > 0")]);
    assert_eq!(out, document(&[("X&amp;Y", "1 &lt; 2 &gt; 0")]));
}

#[test]
fn translate_reads_events() {
    let events = vec![
        Event::Start { name: "movie".to_string(), attributes: vec![] },
        Event::Start {
            name: "uniqueid".to_string(),
            attributes: vec![
                Attribute { name: "type".to_string(), value: "tmdb".to_string() },
                Attribute { name: "type".to_string(), value: "imdb".to_string() },
            ],
        },
        Event::Text { text: "tt7".to_string() },
        Event::End { name: "uniqueid".to_string() },
        Event::Other,
        Event::Start { name: "genre".to_string(), attributes: vec![] },
        Event::Text { text: "Drama".to_string() },
        Event::End { name: "genre".to_string() },
        Event::End { name: "movie".to_string() },
    ];
    assert_eq!(translate(&events), vec![tag("GENRE", "Drama"), tag("IMDB", "tt7")]);
}

#[test]
fn feeding_events_one_by_one() {
    let mut t = Translation::new();
    let mut out = Vec::new();
    t.feed(&Event::Start { name: "movie".to_string(), attributes: vec![] }, &mut out);
    t.feed(&Event::Start { name: "director".to_string(), attributes: vec![] }, &mut out);
    t.feed(&Event::Text { text: "X".to_string() }, &mut out);
    assert!(out.is_empty());
    t.feed(&Event::End { name: "director".to_string() }, &mut out);
    t.feed(&Event::End { name: "movie".to_string() }, &mut out);
    assert_eq!(out, vec![tag("Director", "X")]);
    // what was flushed is not written a second time
    t.feed(&Event::End { name: "movie".to_string() }, &mut out);
    assert_eq!(out, vec![tag("Director", "X")]);
}

#[test]
fn text_after_a_close_still_belongs_to_the_last_opened_element() {
    let out = convert("<movie><title>A</title>tail</movie>");
    assert_eq!(out, document(&[("TITLE", "A"), ("TITLE", "tail")]));
}
