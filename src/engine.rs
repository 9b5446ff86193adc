use vstd::prelude::*;
use crate::event::{Attribute, Event, EventModel, attributes_view, events_view};
use crate::text::{join_with_commas, joined, same_text, strings_view};

verus! {

/// One entry of a tags document: a tag name and its value.
pub type Entry = (Seq<char>, Seq<char>);

/// A `Simple` entry of a tags document.
#[derive(Debug, Clone, PartialEq, Eq)]
pub struct SimpleTag {
    pub name: String,
    pub value: String,
}

pub open spec fn entries_view(tags: Seq<SimpleTag>) -> Seq<Entry> {
    tags.map_values(|t: SimpleTag| (t.name@, t.value@))
}

pub open spec fn opt_view(o: Option<String>) -> Option<Seq<char>> {
    match o {
        Some(s) => Some(s@),
        None => None,
    }
}

/// What the translation remembers between two events of one document.
pub struct StateModel {
    /// Local name of the element opened last.
    pub current: Option<Seq<char>>,
    /// The root opened last was `episodedetails`.
    pub episode: bool,
    /// Value of a `uniqueid` whose type is `imdb`, waiting for the root close.
    pub imdb: Option<Seq<char>>,
    pub in_uniqueid: bool,
    pub uniqueid_type: Option<Seq<char>>,
    pub directors: Seq<Seq<char>>,
    pub writers: Seq<Seq<char>>,
    pub actors: Seq<Seq<char>>,
    pub collection_name: Option<Seq<char>>,
    pub collection_overview: Option<Seq<char>>,
    pub plot: Option<Seq<char>>,
    pub outline: Option<Seq<char>>,
    pub inside_actor: bool,
    pub inside_name: bool,
    pub inside_set: bool,
    /// Name of the actor being read, appended to `actors` when it closes.
    pub actor_name: Seq<char>,
}

pub open spec fn initial_state() -> StateModel {
    StateModel {
        current: None,
        episode: false,
        imdb: None,
        in_uniqueid: false,
        uniqueid_type: None,
        directors: Seq::empty(),
        writers: Seq::empty(),
        actors: Seq::empty(),
        collection_name: None,
        collection_overview: None,
        plot: None,
        outline: None,
        inside_actor: false,
        inside_name: false,
        inside_set: false,
        actor_name: Seq::empty(),
    }
}

/// The value of the last attribute named `type`, if any.
pub open spec fn type_attribute(attrs: Seq<(Seq<char>, Seq<char>)>) -> Option<Seq<char>>
    decreases attrs.len(),
{
    if attrs.len() == 0 {
        None
    } else if attrs.last().0 == "type"@ {
        Some(attrs.last().1)
    } else {
        type_attribute(attrs.drop_last())
    }
}

/// The tag that a source element's text is copied to as it is read.
pub open spec fn direct_tag(name: Seq<char>) -> Option<Seq<char>> {
    if name == "genre"@ {
        Some("GENRE"@)
    } else if name == "title"@ {
        Some("TITLE"@)
    } else if name == "showtitle"@ {
        Some("SUBTITLE"@)
    } else if name == "season"@ {
        Some("SEASON"@)
    } else if name == "episode"@ {
        Some("EPISODE"@)
    } else if name == "originaltitle"@ {
        Some("ORIGINALTITLE"@)
    } else if name == "year"@ {
        Some("YEAR"@)
    } else if name == "tagline"@ {
        Some("TAGLINE"@)
    } else if name == "runtime"@ {
        Some("RUNTIME"@)
    } else if name == "mpaa"@ {
        Some("MPAA"@)
    } else if name == "certification"@ {
        Some("CERTIFICATION"@)
    } else if name == "tmdbid"@ {
        Some("TMDB"@)
    } else if name == "country"@ {
        Some("COUNTRY"@)
    } else if name == "premiered"@ {
        Some("PREMIERED"@)
    } else if name == "studio"@ {
        Some("STUDIO"@)
    } else {
        None
    }
}

/// An element that closes a whole document and flushes what was deferred.
pub open spec fn is_root(name: Seq<char>) -> bool {
    name == "movie"@ || name == "episodedetails"@
}

pub open spec fn opened(s: StateModel, name: Seq<char>, attrs: Seq<(Seq<char>, Seq<char>)>) -> StateModel {
    let s = StateModel { current: Some(name), ..s };
    if name == "actor"@ {
        StateModel { inside_actor: true, ..s }
    } else if name == "name"@ && s.inside_actor {
        StateModel { inside_name: true, ..s }
    } else if name == "episodedetails"@ {
        StateModel { episode: true, ..s }
    } else if name == "movie"@ {
        StateModel { episode: false, ..s }
    } else if name == "uniqueid"@ {
        StateModel {
            in_uniqueid: true,
            uniqueid_type: match type_attribute(attrs) {
                Some(v) => Some(v),
                None => s.uniqueid_type,
            },
            ..s
        }
    } else if name == "set"@ {
        StateModel { inside_set: true, ..s }
    } else {
        s
    }
}

pub open spec fn on_text(s: StateModel, t: Seq<char>) -> (StateModel, Seq<Entry>) {
    match s.current {
        None => (s, Seq::empty()),
        Some(cur) => if cur == "name"@ && s.inside_actor && s.inside_name {
            (StateModel { actor_name: t, ..s }, Seq::empty())
        } else if cur == "name"@ && s.inside_set {
            (StateModel { collection_name: Some(t), ..s }, Seq::empty())
        } else if cur == "director"@ {
            (StateModel { directors: s.directors.push(t), ..s }, Seq::empty())
        } else if cur == "credits"@ {
            (StateModel { writers: s.writers.push(t), ..s }, Seq::empty())
        } else if cur == "plot"@ {
            (StateModel { plot: Some(t), ..s }, Seq::empty())
        } else if cur == "outline"@ {
            (StateModel { outline: Some(t), ..s }, Seq::empty())
        } else if cur == "overview"@ {
            (StateModel { collection_overview: Some(t), ..s }, Seq::empty())
        } else if cur == "id"@ {
            if s.episode {
                (s, Seq::empty())
            } else {
                (s, seq![("IMDB"@, t)])
            }
        } else if cur == "uniqueid"@ {
            if s.in_uniqueid && s.uniqueid_type == Some("imdb"@) {
                (StateModel { imdb: Some(t), ..s }, Seq::empty())
            } else {
                (s, Seq::empty())
            }
        } else {
            match direct_tag(cur) {
                Some(tag) => (s, seq![(tag, t)]),
                None => (s, Seq::empty()),
            }
        },
    }
}

pub open spec fn optional_entry(name: Seq<char>, value: Option<Seq<char>>) -> Seq<Entry> {
    match value {
        Some(v) => seq![(name, v)],
        None => Seq::empty(),
    }
}

pub open spec fn list_entry(name: Seq<char>, values: Seq<Seq<char>>) -> Seq<Entry> {
    if values.len() > 0 {
        seq![(name, joined(values))]
    } else {
        Seq::empty()
    }
}

/// The entries written when the document root closes, in their fixed order.
pub open spec fn flushed(s: StateModel) -> Seq<Entry> {
    optional_entry("IMDB"@, s.imdb) + optional_entry("DESCRIPTION"@, s.plot) + optional_entry(
        "SUMMARY"@,
        s.outline,
    ) + optional_entry("Collection Name"@, s.collection_name) + optional_entry(
        "Collection Overview"@,
        s.collection_overview,
    ) + list_entry("Director"@, s.directors) + list_entry("WRITER"@, s.writers) + list_entry(
        "Actor"@,
        s.actors,
    )
}

/// The state once the deferred values have been written out.
pub open spec fn cleared(s: StateModel) -> StateModel {
    StateModel {
        imdb: None,
        directors: Seq::empty(),
        writers: Seq::empty(),
        actors: Seq::empty(),
        collection_name: None,
        collection_overview: None,
        plot: None,
        outline: None,
        ..s
    }
}

pub open spec fn closed(s: StateModel, name: Seq<char>) -> (StateModel, Seq<Entry>) {
    if name == "actor"@ {
        let s = if s.actor_name.len() > 0 {
            StateModel { actors: s.actors.push(s.actor_name), actor_name: Seq::empty(), ..s }
        } else {
            s
        };
        (StateModel { inside_actor: false, ..s }, Seq::empty())
    } else if name == "name"@ && s.inside_actor {
        (StateModel { inside_name: false, ..s }, Seq::empty())
    } else if is_root(name) {
        (cleared(s), flushed(s))
    } else if name == "uniqueid"@ {
        (StateModel { in_uniqueid: false, uniqueid_type: None, ..s }, Seq::empty())
    } else if name == "set"@ {
        (StateModel { inside_set: false, ..s }, Seq::empty())
    } else {
        (s, Seq::empty())
    }
}

/// One event read: the next state and the entries written meanwhile.
pub open spec fn step(s: StateModel, e: EventModel) -> (StateModel, Seq<Entry>) {
    match e {
        EventModel::Start(name, attrs) => (opened(s, name, attrs), Seq::empty()),
        EventModel::Text(t) => on_text(s, t),
        EventModel::End(name) => closed(s, name),
        EventModel::Other => (s, Seq::empty()),
    }
}

/// The state after a sequence of events, and every entry written on the way.
pub open spec fn run(evs: Seq<EventModel>) -> (StateModel, Seq<Entry>)
    decreases evs.len(),
{
    if evs.len() == 0 {
        (initial_state(), Seq::empty())
    } else {
        let (s, out) = run(evs.drop_last());
        let (next, written) = step(s, evs.last());
        (next, out + written)
    }
}

/// The entries of the tags document for a source document's events.
pub open spec fn translation(evs: Seq<EventModel>) -> Seq<Entry> {
    run(evs).1
}


/// The state of one translation pass over a source document.
pub struct Translation {
    current: Option<String>,
    episode: bool,
    imdb: Option<String>,
    in_uniqueid: bool,
    uniqueid_type: Option<String>,
    directors: Vec<String>,
    writers: Vec<String>,
    actors: Vec<String>,
    collection_name: Option<String>,
    collection_overview: Option<String>,
    plot: Option<String>,
    outline: Option<String>,
    inside_actor: bool,
    inside_name: bool,
    inside_set: bool,
    actor_name: String,
}

impl View for Translation {
    type V = StateModel;

    closed spec fn view(&self) -> StateModel {
        StateModel {
            current: opt_view(self.current),
            episode: self.episode,
            imdb: opt_view(self.imdb),
            in_uniqueid: self.in_uniqueid,
            uniqueid_type: opt_view(self.uniqueid_type),
            directors: strings_view(self.directors@),
            writers: strings_view(self.writers@),
            actors: strings_view(self.actors@),
            collection_name: opt_view(self.collection_name),
            collection_overview: opt_view(self.collection_overview),
            plot: opt_view(self.plot),
            outline: opt_view(self.outline),
            inside_actor: self.inside_actor,
            inside_name: self.inside_name,
            inside_set: self.inside_set,
            actor_name: self.actor_name@,
        }
    }
}

/// Appends one entry.
fn emit(out: &mut Vec<SimpleTag>, name: &str, value: &str)
    ensures
        entries_view(final(out)@) == entries_view(old(out)@).push((name@, value@)),
{
    out.push(SimpleTag { name: name.to_owned(), value: value.to_owned() });
    assert(entries_view(final(out)@) =~= entries_view(old(out)@).push((name@, value@)));
}

fn emit_optional(out: &mut Vec<SimpleTag>, name: &str, value: &Option<String>)
    ensures
        entries_view(final(out)@) == entries_view(old(out)@) + optional_entry(name@, opt_view(*value)),
{
    match value {
        Some(v) => {
            emit(out, name, v.as_str());
            assert(entries_view(final(out)@) =~= entries_view(old(out)@) + optional_entry(name@, opt_view(*value)));
        },
        None => {
            assert(entries_view(old(out)@) =~= entries_view(old(out)@) + optional_entry(name@, opt_view(*value)));
        },
    }
}

fn emit_list(out: &mut Vec<SimpleTag>, name: &str, values: &Vec<String>)
    ensures
        entries_view(final(out)@) == entries_view(old(out)@) + list_entry(name@, strings_view(values@)),
{
    if values.len() > 0 {
        let joined_values = join_with_commas(values);
        emit(out, name, joined_values.as_str());
        assert(entries_view(final(out)@) =~= entries_view(old(out)@) + list_entry(name@, strings_view(values@)));
    } else {
        assert(entries_view(old(out)@) =~= entries_view(old(out)@) + list_entry(name@, strings_view(values@)));
    }
}

fn clone_opt(o: &Option<String>) -> (r: Option<String>)
    ensures
        opt_view(r) == opt_view(*o),
{
    match o {
        Some(s) => Some(s.clone()),
        None => None,
    }
}

/// The value of the last attribute named `type`, if any.
fn find_type_attribute(attrs: &Vec<Attribute>) -> (r: Option<String>)
    ensures
        opt_view(r) == type_attribute(attributes_view(attrs@)),
{
    let mut found: Option<String> = None;
    let mut i: usize = 0;
    while i < attrs.len()
        invariant
            i <= attrs.len(),
            opt_view(found) == type_attribute(attributes_view(attrs@.take(i as int))),
        decreases attrs.len() - i,
    {
        proof {
            assert(attributes_view(attrs@.take(i + 1)).drop_last() =~= attributes_view(attrs@.take(i as int)));
        }
        if same_text(attrs[i].name.as_str(), "type") {
            found = Some(attrs[i].value.clone());
        }
        i += 1;
    }
    assert(attrs@.take(attrs.len() as int) =~= attrs@);
    found
}

/// The tag that a source element's text is copied to as it is read.
fn direct_tag_of(name: &str) -> (r: Option<&'static str>)
    ensures
        match r {
            Some(t) => direct_tag(name@) == Some(t@),
            None => direct_tag(name@) is None,
        },
{
    if same_text(name, "genre") {
        Some("GENRE")
    } else if same_text(name, "title") {
        Some("TITLE")
    } else if same_text(name, "showtitle") {
        Some("SUBTITLE")
    } else if same_text(name, "season") {
        Some("SEASON")
    } else if same_text(name, "episode") {
        Some("EPISODE")
    } else if same_text(name, "originaltitle") {
        Some("ORIGINALTITLE")
    } else if same_text(name, "year") {
        Some("YEAR")
    } else if same_text(name, "tagline") {
        Some("TAGLINE")
    } else if same_text(name, "runtime") {
        Some("RUNTIME")
    } else if same_text(name, "mpaa") {
        Some("MPAA")
    } else if same_text(name, "certification") {
        Some("CERTIFICATION")
    } else if same_text(name, "tmdbid") {
        Some("TMDB")
    } else if same_text(name, "country") {
        Some("COUNTRY")
    } else if same_text(name, "premiered") {
        Some("PREMIERED")
    } else if same_text(name, "studio") {
        Some("STUDIO")
    } else {
        None
    }
}

impl Translation {
    /// A translation before the first event.
    pub fn new() -> (r: Translation)
        ensures
            r@ == initial_state(),
    {
        let r = Translation {
            current: None,
            episode: false,
            imdb: None,
            in_uniqueid: false,
            uniqueid_type: None,
            directors: Vec::new(),
            writers: Vec::new(),
            actors: Vec::new(),
            collection_name: None,
            collection_overview: None,
            plot: None,
            outline: None,
            inside_actor: false,
            inside_name: false,
            inside_set: false,
            actor_name: String::new(),
        };
        assert(r@.directors =~= Seq::<Seq<char>>::empty());
        assert(r@.writers =~= Seq::<Seq<char>>::empty());
        assert(r@.actors =~= Seq::<Seq<char>>::empty());
        r
    }

    fn open_element(&mut self, name: &String, attributes: &Vec<Attribute>)
        ensures
            final(self)@ == opened(old(self)@, name@, attributes_view(attributes@)),
    {
        self.current = Some(name.clone());
        let n = name.as_str();
        if same_text(n, "actor") {
            self.inside_actor = true;
        } else if same_text(n, "name") && self.inside_actor {
            self.inside_name = true;
        } else if same_text(n, "episodedetails") {
            self.episode = true;
        } else if same_text(n, "movie") {
            self.episode = false;
        } else if same_text(n, "uniqueid") {
            self.in_uniqueid = true;
            let found = find_type_attribute(attributes);
            if found.is_some() {
                self.uniqueid_type = found;
            }
        } else if same_text(n, "set") {
            self.inside_set = true;
        }
    }

    fn read_text(&mut self, text: &String, out: &mut Vec<SimpleTag>)
        ensures
            final(self)@ == on_text(old(self)@, text@).0,
            entries_view(final(out)@) == entries_view(old(out)@) + on_text(old(self)@, text@).1,
    {
        let ghost s = self@;
        let ghost o = entries_view(out@);
        assert(o + Seq::<Entry>::empty() =~= o);
        match &self.current {
            None => {},
            Some(cur) => {
                let c = cur.as_str();
                if same_text(c, "name") && self.inside_actor && self.inside_name {
                    self.actor_name = text.clone();
                } else if same_text(c, "name") && self.inside_set {
                    self.collection_name = Some(text.clone());
                } else if same_text(c, "director") {
                    self.directors.push(text.clone());
                    assert(strings_view(self.directors@) =~= s.directors.push(text@));
                } else if same_text(c, "credits") {
                    self.writers.push(text.clone());
                    assert(strings_view(self.writers@) =~= s.writers.push(text@));
                } else if same_text(c, "plot") {
                    self.plot = Some(text.clone());
                } else if same_text(c, "outline") {
                    self.outline = Some(text.clone());
                } else if same_text(c, "overview") {
                    self.collection_overview = Some(text.clone());
                } else if same_text(c, "id") {
                    if !self.episode {
                        emit(out, "IMDB", text.as_str());
                        assert(entries_view(out@) =~= o + seq![("IMDB"@, text@)]);
                    }
                } else if same_text(c, "uniqueid") {
                    if self.in_uniqueid {
                        let is_imdb = match &self.uniqueid_type {
                            Some(t) => same_text(t.as_str(), "imdb"),
                            None => false,
                        };
                        if is_imdb {
                            self.imdb = Some(text.clone());
                        }
                    }
                } else {
                    match direct_tag_of(c) {
                        Some(tag) => {
                            emit(out, tag, text.as_str());
                            assert(entries_view(out@) =~= o + seq![(tag@, text@)]);
                        },
                        None => {},
                    }
                }
            },
        }
    }

    /// Writes out what was deferred to the root close, then forgets it.
    fn flush(&mut self, out: &mut Vec<SimpleTag>)
        ensures
            final(self)@ == cleared(old(self)@),
            entries_view(final(out)@) == entries_view(old(out)@) + flushed(old(self)@),
    {
        let ghost s = self@;
        let ghost o = entries_view(out@);
        let ghost mut acc = o;
        emit_optional(out, "IMDB", &self.imdb);
        proof { acc = acc + optional_entry("IMDB"@, s.imdb); }
        emit_optional(out, "DESCRIPTION", &self.plot);
        proof {
            assert(entries_view(out@) =~= acc + optional_entry("DESCRIPTION"@, s.plot));
            acc = acc + optional_entry("DESCRIPTION"@, s.plot);
        }
        emit_optional(out, "SUMMARY", &self.outline);
        proof {
            assert(entries_view(out@) =~= acc + optional_entry("SUMMARY"@, s.outline));
            acc = acc + optional_entry("SUMMARY"@, s.outline);
        }
        emit_optional(out, "Collection Name", &self.collection_name);
        proof {
            assert(entries_view(out@) =~= acc + optional_entry("Collection Name"@, s.collection_name));
            acc = acc + optional_entry("Collection Name"@, s.collection_name);
        }
        emit_optional(out, "Collection Overview", &self.collection_overview);
        proof {
            assert(entries_view(out@) =~= acc + optional_entry("Collection Overview"@, s.collection_overview));
            acc = acc + optional_entry("Collection Overview"@, s.collection_overview);
        }
        emit_list(out, "Director", &self.directors);
        proof {
            assert(entries_view(out@) =~= acc + list_entry("Director"@, s.directors));
            acc = acc + list_entry("Director"@, s.directors);
        }
        emit_list(out, "WRITER", &self.writers);
        proof {
            assert(entries_view(out@) =~= acc + list_entry("WRITER"@, s.writers));
            acc = acc + list_entry("WRITER"@, s.writers);
        }
        emit_list(out, "Actor", &self.actors);
        proof {
            assert(entries_view(out@) =~= acc + list_entry("Actor"@, s.actors));
            acc = acc + list_entry("Actor"@, s.actors);
            assert(acc == o + flushed(s));
        }
        self.imdb = None;
        self.plot = None;
        self.outline = None;
        self.collection_name = None;
        self.collection_overview = None;
        self.directors = Vec::new();
        self.writers = Vec::new();
        self.actors = Vec::new();
        assert(self@.directors =~= Seq::<Seq<char>>::empty());
        assert(self@.writers =~= Seq::<Seq<char>>::empty());
        assert(self@.actors =~= Seq::<Seq<char>>::empty());
    }

    fn close_element(&mut self, name: &String, out: &mut Vec<SimpleTag>)
        ensures
            final(self)@ == closed(old(self)@, name@).0,
            entries_view(final(out)@) == entries_view(old(out)@) + closed(old(self)@, name@).1,
    {
        let ghost s = self@;
        let ghost o = entries_view(out@);
        assert(o + Seq::<Entry>::empty() =~= o);
        let n = name.as_str();
        if same_text(n, "actor") {
            if self.actor_name.unicode_len() > 0 {
                self.actors.push(self.actor_name.clone());
                self.actor_name = String::new();
                assert(strings_view(self.actors@) =~= s.actors.push(s.actor_name));
            }
            self.inside_actor = false;
        } else if same_text(n, "name") && self.inside_actor {
            self.inside_name = false;
        } else if same_text(n, "movie") || same_text(n, "episodedetails") {
            self.flush(out);
        } else if same_text(n, "uniqueid") {
            self.in_uniqueid = false;
            self.uniqueid_type = None;
        } else if same_text(n, "set") {
            self.inside_set = false;
        }
    }

    /// Reads one event, appending to `out` the entries it writes.
    pub fn feed(&mut self, event: &Event, out: &mut Vec<SimpleTag>)
        ensures
            final(self)@ == step(old(self)@, event@).0,
            entries_view(final(out)@) == entries_view(old(out)@) + step(old(self)@, event@).1,
    {
        let ghost o = entries_view(out@);
        assert(o + Seq::<Entry>::empty() =~= o);
        match event {
            Event::Start { name, attributes } => self.open_element(name, attributes),
            Event::Text { text } => self.read_text(text, out),
            Event::End { name } => self.close_element(name, out),
            Event::Other => {},
        }
    }
}

/// The entries of the tags document for a source document's events.
pub fn translate(events: &Vec<Event>) -> (r: Vec<SimpleTag>)
    ensures
        entries_view(r@) == translation(events_view(events@)),
{
    let mut state = Translation::new();
    let mut out: Vec<SimpleTag> = Vec::new();
    let mut i: usize = 0;
    assert(entries_view(out@) =~= Seq::<Entry>::empty());
    assert(events_view(events@).take(0) =~= Seq::<EventModel>::empty());
    while i < events.len()
        invariant
            i <= events.len(),
            state@ == run(events_view(events@).take(i as int)).0,
            entries_view(out@) == run(events_view(events@).take(i as int)).1,
        decreases events.len() - i,
    {
        proof {
            let evs = events_view(events@);
            assert(evs.take(i + 1).drop_last() =~= evs.take(i as int));
            assert(evs.take(i + 1).last() == events@[i as int]@);
        }
        state.feed(&events[i], &mut out);
        i += 1;
    }
    assert(events_view(events@).take(events.len() as int) =~= events_view(events@));
    out
}

} // verus!
