use vstd::prelude::*;
use crate::text::{join_with_commas, joined, same_text, strings_view};

verus! {

/// The two containers that can be tagged, told apart by file extension.
#[derive(Clone, Copy, Debug, PartialEq, Eq)]
pub enum Container {
    Mp4,
    Mkv,
    Unsupported,
}

/// The container that a video file's extension names.
pub fn container_of(extension: &str) -> (r: Container)
    ensures
        r == (if extension@ == "mp4"@ {
            Container::Mp4
        } else if extension@ == "mkv"@ {
            Container::Mkv
        } else {
            Container::Unsupported
        }),
{
    if same_text(extension, "mp4") {
        Container::Mp4
    } else if same_text(extension, "mkv") {
        Container::Mkv
    } else {
        Container::Unsupported
    }
}

/// A cover image must be a JPEG or a PNG file.
pub fn is_correct_image(extension: &str) -> (r: bool)
    ensures
        r == (extension@ == "jpg"@ || extension@ == "jpeg"@ || extension@ == "png"@),
{
    same_text(extension, "jpg") || same_text(extension, "jpeg") || same_text(extension, "png")
}

/// The MIME type under which a cover is attached.
pub fn cover_mime_type(extension: &str) -> (r: &'static str)
    ensures
        r@ == (if extension@ == "png"@ { "image/png"@ } else { "image/jpeg"@ }),
{
    if same_text(extension, "png") {
        "image/png"
    } else {
        "image/jpeg"
    }
}

/// The attachment name under which a cover is stored in a Matroska file.
pub fn cover_attachment_name(is_landscape: bool) -> (r: &'static str)
    ensures
        r@ == (if is_landscape { "cover_land"@ } else { "cover"@ }),
{
    if is_landscape {
        "cover_land"
    } else {
        "cover"
    }
}

fn concat(a: &str, b: &str) -> (r: String)
    ensures
        r@ == a@ + b@,
{
    let mut r = a.to_owned();
    r.append(b);
    r
}

/// The file names, in the order they are tried, under which a video's cover
/// is looked for beside it.
pub fn cover_file_names(stem: &str, suffix: &str) -> (r: Vec<String>)
    ensures
        strings_view(r@) == seq![stem@ + suffix@ + ".jpg"@, stem@ + suffix@ + ".jpeg"@, stem@ + suffix@ + ".png"@],
{
    let base = concat(stem, suffix);
    let mut r: Vec<String> = Vec::new();
    r.push(concat(base.as_str(), ".jpg"));
    r.push(concat(base.as_str(), ".jpeg"));
    r.push(concat(base.as_str(), ".png"));
    assert(strings_view(r@) =~= seq![stem@ + suffix@ + ".jpg"@, stem@ + suffix@ + ".jpeg"@, stem@ + suffix@ + ".png"@]);
    r
}

/// The file an MP4 is written to: the one asked for, or else the video itself.
pub fn output_file_path(path: String, output: Option<&String>) -> (r: Option<String>)
    ensures
        r is Some,
        r->Some_0@ == (match output {
            Some(o) => o@,
            None => path@,
        }),
{
    match output {
        Some(o) => Some(o.clone()),
        None => Some(path),
    }
}

/// A path segment that every platform reads as plain text: not empty, and
/// with no separator, dot or drive colon in it.
pub open spec fn plain_segment(s: Seq<char>) -> bool {
    s.len() > 0 && forall|i: int| 0 <= i < s.len() ==> s[i] != '/' && s[i] != '\\' && s[i] != '.' && s[i] != ':'
}

/// The path of the file `stem.extension` in the directory `dir`.
pub open spec fn file_in_dir(dir: Seq<char>, stem: Seq<char>, extension: Seq<char>) -> Seq<char> {
    dir + "/"@ + stem + "."@ + extension
}

/// Relies on std::path::Path::with_extension, with the extension `nfo`
/// (which holds no separator, so std does not panic): the part of the file
/// name after its last dot is replaced. Beyond that, path syntax depends on
/// the platform, so only a path `dir/stem.ext` of plain segments is spoken of.
#[verifier::external_body]
fn with_nfo_extension(path: &str) -> (r: String)
    ensures
        forall|dir: Seq<char>, stem: Seq<char>, ext: Seq<char>|
            #[trigger] file_in_dir(dir, stem, ext) == path@ && plain_segment(stem) && plain_segment(ext)
                ==> r@ == file_in_dir(dir, stem, "nfo"@),
{
    std::path::Path::new(path).with_extension("nfo").to_string_lossy().into_owned()
}

/// Where a video's NFO file is looked for: the path given, or else the video's
/// path with the extension `nfo`.
pub fn nfo_path(path: String, nfo_cli_option: Option<&String>) -> (r: String)
    ensures
        nfo_cli_option is Some ==> r@ == nfo_cli_option->Some_0@,
        forall|dir: Seq<char>, stem: Seq<char>, ext: Seq<char>|
            nfo_cli_option is None && #[trigger] file_in_dir(dir, stem, ext) == path@ && plain_segment(stem)
                && plain_segment(ext) ==> r@ == file_in_dir(dir, stem, "nfo"@),
{
    match nfo_cli_option {
        Some(p) => p.clone(),
        None => with_nfo_extension(path.as_str()),
    }
}

/// The name a video is moved to while it is rewritten in place.
pub fn backup_file_name(stem: &str, extension: &str) -> (r: String)
    ensures
        r@ == stem@ + ".OLD."@ + extension@,
{
    let s = concat(stem, ".OLD.");
    concat(s.as_str(), extension)
}

/// The fields of an NFO document that go into an MP4's metadata.
#[derive(Debug, Clone, PartialEq, Eq)]
pub struct NfoRecord {
    pub title: String,
    pub premiered: String,
    pub outline: String,
    pub plot: String,
    pub genres: Vec<String>,
    pub tags: Vec<String>,
}

/// The `key=value` metadata for the remuxer: title, genres, keywords,
/// description, synopsis and date, in that order; lists joined by commas.
pub fn metadata_args(nfo: &NfoRecord) -> (r: Vec<String>)
    ensures
        strings_view(r@) == seq![
            "title="@ + nfo.title@,
            "genre="@ + joined(strings_view(nfo.genres@)),
            "keywords="@ + joined(strings_view(nfo.tags@)),
            "description="@ + nfo.plot@,
            "synopsis="@ + nfo.outline@,
            "date="@ + nfo.premiered@,
        ],
{
    let mut r: Vec<String> = Vec::new();
    r.push(concat("title=", nfo.title.as_str()));
    let genres = join_with_commas(&nfo.genres);
    r.push(concat("genre=", genres.as_str()));
    let tags = join_with_commas(&nfo.tags);
    r.push(concat("keywords=", tags.as_str()));
    r.push(concat("description=", nfo.plot.as_str()));
    r.push(concat("synopsis=", nfo.outline.as_str()));
    r.push(concat("date=", nfo.premiered.as_str()));
    assert(strings_view(r@) =~= seq![
        "title="@ + nfo.title@,
        "genre="@ + joined(strings_view(nfo.genres@)),
        "keywords="@ + joined(strings_view(nfo.tags@)),
        "description="@ + nfo.plot@,
        "synopsis="@ + nfo.outline@,
        "date="@ + nfo.premiered@,
    ]);
    r
}

/// Each value preceded by the flag `-metadata`.
pub open spec fn metadata_flags(values: Seq<Seq<char>>) -> Seq<Seq<char>>
    decreases values.len(),
{
    if values.len() == 0 {
        Seq::empty()
    } else {
        metadata_flags(values.drop_last()) + seq!["-metadata"@, values.last()]
    }
}

pub open spec fn ffmpeg_command(
    input: Seq<char>,
    cover: Option<Seq<char>>,
    metadata: Seq<Seq<char>>,
    output: Option<Seq<char>>,
) -> Seq<Seq<char>> {
    seq!["-nostats"@, "-loglevel"@, "0"@, "-i"@, input] + (match cover {
        Some(c) => seq!["-i"@, c, "-map"@, "1"@, "-map"@, "0"@],
        None => Seq::empty(),
    }) + metadata_flags(metadata) + seq!["-codec"@, "copy"@] + (match cover {
        Some(c) => seq!["-disposition:0"@, "attached_pic"@],
        None => Seq::empty(),
    }) + (match output {
        Some(o) => seq![o],
        None => Seq::empty(),
    })
}

fn push_str(v: &mut Vec<String>, s: &str)
    ensures
        strings_view(final(v)@) == strings_view(old(v)@).push(s@),
{
    v.push(s.to_owned());
    assert(strings_view(final(v)@) =~= strings_view(old(v)@).push(s@));
}

/// The remuxer's arguments that copy the streams of `input`, attach the
/// cover if there is one, set the metadata, and write `output`.
pub fn ffmpeg_args(input: &str, cover: Option<&str>, metadata: &Vec<String>, output: Option<&str>) -> (r: Vec<String>)
    ensures
        strings_view(r@) == ffmpeg_command(
            input@,
            match cover {
                Some(c) => Some(c@),
                None => None,
            },
            strings_view(metadata@),
            match output {
                Some(o) => Some(o@),
                None => None,
            },
        ),
{
    let ghost cv: Option<Seq<char>> = match cover {
        Some(c) => Some(c@),
        None => None,
    };
    let ghost ov: Option<Seq<char>> = match output {
        Some(o) => Some(o@),
        None => None,
    };
    let mut r: Vec<String> = Vec::new();
    push_str(&mut r, "-nostats");
    push_str(&mut r, "-loglevel");
    push_str(&mut r, "0");
    push_str(&mut r, "-i");
    push_str(&mut r, input);
    let ghost head = seq!["-nostats"@, "-loglevel"@, "0"@, "-i"@, input@];
    assert(strings_view(r@) =~= head);
    if let Some(c) = cover {
        push_str(&mut r, "-i");
        push_str(&mut r, c);
        push_str(&mut r, "-map");
        push_str(&mut r, "1");
        push_str(&mut r, "-map");
        push_str(&mut r, "0");
    }
    let ghost with_cover = head + match cv {
        Some(c) => seq!["-i"@, c, "-map"@, "1"@, "-map"@, "0"@],
        None => Seq::<Seq<char>>::empty(),
    };
    assert(strings_view(r@) =~= with_cover);
    let mut i: usize = 0;
    while i < metadata.len()
        invariant
            i <= metadata.len(),
            strings_view(r@) == with_cover + metadata_flags(strings_view(metadata@).take(i as int)),
        decreases metadata.len() - i,
    {
        proof {
            let mv = strings_view(metadata@);
            assert(mv.take(i + 1).drop_last() =~= mv.take(i as int));
            assert(mv.take(i + 1).last() == metadata@[i as int]@);
        }
        let ghost before = strings_view(r@);
        push_str(&mut r, "-metadata");
        push_str(&mut r, metadata[i].as_str());
        proof {
            assert(strings_view(r@) =~= before + seq!["-metadata"@, metadata@[i as int]@]);
        }
        i += 1;
    }
    assert(strings_view(metadata@).take(metadata.len() as int) =~= strings_view(metadata@));
    push_str(&mut r, "-codec");
    push_str(&mut r, "copy");
    if cover.is_some() {
        push_str(&mut r, "-disposition:0");
        push_str(&mut r, "attached_pic");
    }
    if let Some(o) = output {
        push_str(&mut r, o);
    }
    assert(strings_view(r@) =~= ffmpeg_command(input@, cv, strings_view(metadata@), ov));
    r
}

pub open spec fn mkvpropedit_command(
    title_metadata: Seq<char>,
    video: Seq<char>,
    tags_file: Option<Seq<char>>,
    cover: Option<(Seq<char>, Seq<char>, Seq<char>)>,
) -> Seq<Seq<char>> {
    seq!["--edit"@, "info"@, "-s"@, title_metadata, video] + (match tags_file {
        Some(t) => seq!["--tags"@, "all:"@ + t],
        None => Seq::empty(),
    }) + match cover {
        Some((name, mime, path)) => seq![
            "--attachment-name"@,
            name,
            "--attachment-mime-type"@,
            mime,
            "--add-attachment"@,
            path,
        ],
        None => Seq::empty(),
    }
}

/// The Matroska property editor's arguments that set the title, replace
/// the tags by those of `tags_file` where a tags document was written, and
/// add the cover if there is one (its attachment name, MIME type and path).
pub fn mkvpropedit_args(
    title_metadata: &str,
    video: &str,
    tags_file: Option<&str>,
    cover: Option<(&str, &str, &str)>,
) -> (r: Vec<String>)
    ensures
        strings_view(r@) == mkvpropedit_command(
            title_metadata@,
            video@,
            match tags_file {
                Some(t) => Some(t@),
                None => None,
            },
            match cover {
                Some((n, m, p)) => Some((n@, m@, p@)),
                None => None,
            },
        ),
{
    let mut r: Vec<String> = Vec::new();
    push_str(&mut r, "--edit");
    push_str(&mut r, "info");
    push_str(&mut r, "-s");
    push_str(&mut r, title_metadata);
    push_str(&mut r, video);
    if let Some(t) = tags_file {
        push_str(&mut r, "--tags");
        let tags = concat("all:", t);
        push_str(&mut r, tags.as_str());
    }
    if let Some((name, mime, path)) = cover {
        push_str(&mut r, "--attachment-name");
        push_str(&mut r, name);
        push_str(&mut r, "--attachment-mime-type");
        push_str(&mut r, mime);
        push_str(&mut r, "--add-attachment");
        push_str(&mut r, path);
    }
    proof {
        let cv = match cover {
            Some((n, m, p)) => Some((n@, m@, p@)),
            None => None,
        };
        let tv = match tags_file {
            Some(t) => Some(t@),
            None => None,
        };
        assert(strings_view(r@) =~= mkvpropedit_command(title_metadata@, video@, tv, cv));
    }
    r
}


/// Index of the first value equal to `x`, if any.
pub open spec fn first_index(v: Seq<Seq<char>>, x: Seq<char>) -> Option<int>
    decreases v.len(),
{
    if v.len() == 0 {
        None
    } else {
        match first_index(v.drop_last(), x) {
            Some(i) => Some(i),
            None => if v.last() == x {
                Some(v.len() - 1)
            } else {
                None
            },
        }
    }
}

proof fn lemma_first_index_in_bounds(v: Seq<Seq<char>>, x: Seq<char>)
    ensures
        match first_index(v, x) {
            Some(i) => 0 <= i < v.len() && v[i] == x,
            None => true,
        },
    decreases v.len(),
{
    if v.len() > 0 {
        lemma_first_index_in_bounds(v.drop_last(), x);
    }
}

/// The arguments with `-progress pipe:1` inserted right after the first
/// occurrence of `input`, or after the first argument where it is absent.
pub open spec fn with_progress(v: Seq<Seq<char>>, input: Seq<char>) -> Seq<Seq<char>> {
    let p = match first_index(v, input) {
        Some(i) => i,
        None => 0,
    };
    v.take(p + 1) + seq!["-progress"@, "pipe:1"@] + v.skip(p + 1)
}

/// Asks the remuxer to report its progress on standard output.
pub fn insert_progress_args(args: &Vec<String>, input: &str) -> (r: Vec<String>)
    requires
        args.len() > 0,
    ensures
        strings_view(r@) == with_progress(strings_view(args@), input@),
{
    let ghost v = strings_view(args@);
    let mut found: Option<usize> = None;
    let mut i: usize = 0;
    while i < args.len()
        invariant
            i <= args.len(),
            v == strings_view(args@),
            match found {
                Some(k) => first_index(v.take(i as int), input@) == Some(k as int),
                None => first_index(v.take(i as int), input@) is None,
            },
        decreases args.len() - i,
    {
        proof {
            assert(v.take(i + 1).drop_last() =~= v.take(i as int));
        }
        if found.is_none() && same_text(args[i].as_str(), input) {
            found = Some(i);
        }
        i += 1;
    }
    assert(v.take(args.len() as int) =~= v);
    proof {
        lemma_first_index_in_bounds(v, input@);
    }
    let p: usize = match found {
        Some(k) => k,
        None => 0,
    };
    let mut r: Vec<String> = Vec::new();
    let mut j: usize = 0;
    while j < args.len()
        invariant
            j <= args.len(),
            p < args.len(),
            v == strings_view(args@),
            strings_view(r@) == (if j <= p {
                v.take(j as int)
            } else {
                v.take(p + 1) + seq!["-progress"@, "pipe:1"@] + v.subrange(p + 1, j as int)
            }),
        decreases args.len() - j,
    {
        let ghost before = strings_view(r@);
        push_str(&mut r, args[j].as_str());
        if j == p {
            push_str(&mut r, "-progress");
            push_str(&mut r, "pipe:1");
        }
        proof {
            if j < p {
                assert(strings_view(r@) =~= v.take(j + 1));
            } else if j == p {
                assert(strings_view(r@) =~= v.take(p + 1) + seq!["-progress"@, "pipe:1"@] + v.subrange(
                    p + 1,
                    j + 1,
                ));
            } else {
                assert(strings_view(r@) =~= v.take(p + 1) + seq!["-progress"@, "pipe:1"@] + v.subrange(
                    p + 1,
                    j + 1,
                ));
            }
        }
        j += 1;
    }
    assert(v.subrange(p + 1, args.len() as int) =~= v.skip(p + 1));
    r
}

/// The time that a remuxer progress line reports: what follows `out_time=`
/// on a line that starts with it.
pub fn progress_time(line: &str) -> (r: Option<String>)
    ensures
        match r {
            Some(t) => line@.len() >= 9 && line@.take(9) == "out_time="@ && t@ == line@.skip(9),
            None => !(line@.len() >= 9 && line@.take(9) == "out_time="@),
        },
{
    let prefix = "out_time=";
    proof {
        reveal_strlit("out_time=");
    }
    let n = line.unicode_len();
    if n < 9 {
        return None;
    }
    let head = line.substring_char(0, 9);
    if !same_text(head, prefix) {
        return None;
    }
    let tail = line.substring_char(9, n);
    assert(tail@ =~= line@.skip(9));
    Some(tail.to_owned())
}

/// Several sinks that receive the same bytes.
pub struct MultiWriter<W> {
    pub writers: Vec<W>,
}

impl<W> MultiWriter<W> {
    pub fn new(writers: Vec<W>) -> (r: Self)
        ensures
            r.writers == writers,
    {
        MultiWriter { writers }
    }
}

} // verus!
