use nfo2tags::{
    Container, MultiWriter, NfoRecord, backup_file_name, container_of, cover_attachment_name, cover_file_names,
    cover_mime_type, ffmpeg_args, insert_progress_args, is_correct_image, join_with_commas, metadata_args,
    mkvpropedit_args, nfo_path, output_file_path, progress_time, same_text,
};

fn strings(v: &[&str]) -> Vec<String> {
    v.iter().map(|s| s.to_string()).collect()
}

#[test]
fn containers_by_extension() {
    assert_eq!(container_of("mp4"), Container::Mp4);
    assert_eq!(container_of("mkv"), Container::Mkv);
    assert_eq!(container_of("avi"), Container::Unsupported);
    assert_eq!(container_of("MKV"), Container::Unsupported);
}

#[test]
fn image_extensions() {
    assert!(is_correct_image("jpg"));
    assert!(is_correct_image("jpeg"));
    assert!(is_correct_image("png"));
    assert!(!is_correct_image("gif"));
    assert!(!is_correct_image(""));
}

#[test]
fn cover_types_and_names() {
    assert_eq!(cover_mime_type("png"), "image/png");
    assert_eq!(cover_mime_type("jpg"), "image/jpeg");
    assert_eq!(cover_attachment_name(true), "cover_land");
    assert_eq!(cover_attachment_name(false), "cover");
}

#[test]
fn cover_candidates() {
    assert_eq!(
        cover_file_names("Heat.1995", "-poster"),
        strings(&["Heat.1995-poster.jpg", "Heat.1995-poster.jpeg", "Heat.1995-poster.png"])
    );
}

#[test]
fn output_path_choice() {
    let given = "/out/b.mp4".to_string();
    assert_eq!(output_file_path("/in/a.mp4".to_string(), Some(&given)), Some(given.clone()));
    assert_eq!(output_file_path("/in/a.mp4".to_string(), None), Some("/in/a.mp4".to_string()));
}

#[test]
fn nfo_path_choice() {
    let given = "/elsewhere/info.nfo".to_string();
    assert_eq!(nfo_path("/videos/a.mkv".to_string(), Some(&given)), given);
    assert_eq!(nfo_path("/videos/a.mkv".to_string(), None), "/videos/a.nfo");
    assert_eq!(nfo_path("rel/dir/movie.mp4".to_string(), None), "rel/dir/movie.nfo");
}

#[test]
fn backup_name() {
    assert_eq!(backup_file_name("Heat", "mp4"), "Heat.OLD.mp4");
}

#[test]
fn joining() {
    assert_eq!(join_with_commas(&strings(&[])), "");
    assert_eq!(join_with_commas(&strings(&["A"])), "A");
    assert_eq!(join_with_commas(&strings(&["A", "B", "C"])), "A,B,C");
    assert!(same_text("abc", "abc"));
    assert!(!same_text("abc", "abd"));
    assert!(!same_text("ab", "abc"));
}

fn record() -> NfoRecord {
    NfoRecord {
        title: "Heat".to_string(),
        premiered: "1995-12-15".to_string(),
        outline: "Short".to_string(),
        plot: "Long".to_string(),
        genres: strings(&["Crime", "Drama"]),
        tags: strings(&[]),
    }
}

#[test]
fn metadata_pairs() {
    assert_eq!(
        metadata_args(&record()),
        strings(&[
            "title=Heat",
            "genre=Crime,Drama",
            "keywords=",
            "description=Long",
            "synopsis=Short",
            "date=1995-12-15",
        ])
    );
}

#[test]
fn ffmpeg_arguments_with_cover() {
    let md = strings(&["title=T", "genre=G"]);
    assert_eq!(
        ffmpeg_args("a.OLD.mp4", Some("c.jpg"), &md, Some("a.mp4")),
        strings(&[
            "-nostats", "-loglevel", "0", "-i", "a.OLD.mp4", "-i", "c.jpg", "-map", "1", "-map", "0", "-metadata",
            "title=T", "-metadata", "genre=G", "-codec", "copy", "-disposition:0", "attached_pic", "a.mp4",
        ])
    );
}

#[test]
fn ffmpeg_arguments_without_cover() {
    let md = strings(&["title=T"]);
    assert_eq!(
        ffmpeg_args("in.mp4", None, &md, None),
        strings(&["-nostats", "-loglevel", "0", "-i", "in.mp4", "-metadata", "title=T", "-codec", "copy"])
    );
}

#[test]
fn mkvpropedit_arguments() {
    assert_eq!(
        mkvpropedit_args("title=T", "v.mkv", Some("v.xml"), Some(("cover", "image/jpeg", "c.jpg"))),
        strings(&[
            "--edit", "info", "-s", "title=T", "v.mkv", "--tags", "all:v.xml", "--attachment-name", "cover",
            "--attachment-mime-type", "image/jpeg", "--add-attachment", "c.jpg",
        ])
    );
    assert_eq!(
        mkvpropedit_args("title=T", "v.mkv", Some("v.xml"), None),
        strings(&["--edit", "info", "-s", "title=T", "v.mkv", "--tags", "all:v.xml"])
    );
    assert_eq!(
        mkvpropedit_args("title=T", "v.mkv", None, Some(("cover_land", "image/png", "c.png"))),
        strings(&[
            "--edit", "info", "-s", "title=T", "v.mkv", "--attachment-name", "cover_land", "--attachment-mime-type",
            "image/png", "--add-attachment", "c.png",
        ])
    );
}

#[test]
fn progress_flags_follow_the_input() {
    let args = strings(&["-nostats", "-i", "in.mp4", "out.mp4"]);
    assert_eq!(
        insert_progress_args(&args, "in.mp4"),
        strings(&["-nostats", "-i", "in.mp4", "-progress", "pipe:1", "out.mp4"])
    );
    assert_eq!(
        insert_progress_args(&args, "missing"),
        strings(&["-nostats", "-progress", "pipe:1", "-i", "in.mp4", "out.mp4"])
    );
}

#[test]
fn progress_lines() {
    assert_eq!(progress_time("out_time=00:01:02.500000"), Some("00:01:02.500000".to_string()));
    assert_eq!(progress_time("out_time="), Some(String::new()));
    assert_eq!(progress_time("frame=12"), None);
    assert_eq!(progress_time("out_tim"), None);
}

#[test]
fn multi_writer_keeps_its_sinks() {
    let w = MultiWriter::new(vec![1u8, 2, 3]);
    assert_eq!(w.writers, vec![1u8, 2, 3]);
}
