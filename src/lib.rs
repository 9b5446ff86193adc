//! Translation of NFO media-metadata documents into the tagging XML that
//! Matroska tag editors consume, plus the small pieces of per-file planning
//! around it.

mod document;
mod engine;
mod event;
mod lemmas;
mod plan;
mod text;

pub use document::{TagsError, convert_to_mkv_tags, render_tags};
pub use engine::{SimpleTag, StateModel, Translation, translate};
pub use event::{Attribute, Event, EventModel};
pub use lemmas::{
    lemma_actor_close_appends_its_name, lemma_conversion_depends_on_source_alone, lemma_direct_tags_lead,
    lemma_name_outside_actor_is_not_an_actor, lemma_no_actor_no_actor_tag,
};
pub use plan::{
    Container, MultiWriter, NfoRecord, backup_file_name, container_of, cover_attachment_name, cover_file_names,
    cover_mime_type, ffmpeg_args, insert_progress_args, is_correct_image, metadata_args, mkvpropedit_args, nfo_path,
    output_file_path, progress_time,
};
pub use text::{join_with_commas, same_text};
