//! Translation of a download request into the download tool's arguments.
use vstd::prelude::*;
use vstd::string::*;
use crate::models::{DownloadRequest, DownloadRequestView};
use crate::progress::opt_view;

verus! {

/// `[name]` when `on`, nothing otherwise.
pub open spec fn switch_args(name: Seq<char>, on: bool) -> Seq<Seq<char>> {
    if on {
        seq![name]
    } else {
        seq![]
    }
}

/// `[name, value]` when a value is given, nothing otherwise.
pub open spec fn valued_args(name: Seq<char>, v: Option<Seq<char>>) -> Seq<Seq<char>> {
    match v {
        Some(x) => seq![name, x],
        None => seq![],
    }
}

/// Post-processing: audio extraction wins over remuxing.
pub open spec fn post_processing_args(r: DownloadRequestView) -> Seq<Seq<char>> {
    if r.extract_audio {
        seq!["--extract-audio"@] + valued_args("--audio-format"@, r.audio_format) + valued_args(
            "--audio-quality"@,
            r.audio_quality,
        )
    } else {
        valued_args("--remux-video"@, r.remux_video)
    }
}

/// The argument vector for request `r` writing to `template`: format,
/// line-per-update output and template first, then each directive that is
/// set, and the URL last.
pub open spec fn download_arguments(r: DownloadRequestView, template: Seq<char>) -> Seq<Seq<char>> {
    seq!["-f"@, r.format_id, "--newline"@, "-o"@, template]
        + switch_args("--write-info-json"@, r.write_info_json)
        + switch_args("--write-thumbnail"@, r.write_thumbnail)
        + switch_args("--restrict-filenames"@, r.restrict_filenames)
        + valued_args("--playlist-items"@, r.playlist_items)
        + valued_args("--match-filters"@, r.match_filter)
        + valued_args("--max-filesize"@, r.max_filesize)
        + post_processing_args(r)
        + switch_args("--embed-thumbnail"@, r.embed_thumbnail == Some(true))
        + valued_args("--sponsorblock-remove"@, r.sponsorblock_remove)
        + valued_args("--sponsorblock-mark"@, r.sponsorblock_mark)
        + seq![r.url]
}

fn push_text(args: &mut Vec<String>, text: &str)
    ensures
        final(args).deep_view() == old(args).deep_view().push(text@),
{
    args.push(String::from_str(text));
    assert(args.deep_view() =~= old(args).deep_view().push(text@));
}

fn push_switch(args: &mut Vec<String>, name: &str, on: bool)
    ensures
        final(args).deep_view() == old(args).deep_view() + switch_args(name@, on),
{
    if on {
        push_text(args, name);
    }
    assert(args.deep_view() =~= old(args).deep_view() + switch_args(name@, on));
}

fn push_valued(args: &mut Vec<String>, name: &str, v: &Option<String>)
    ensures
        final(args).deep_view() == old(args).deep_view() + valued_args(name@, opt_view(*v)),
{
    if let Some(x) = v {
        push_text(args, name);
        push_text(args, x.as_str());
    }
    assert(args.deep_view() =~= old(args).deep_view() + valued_args(name@, opt_view(*v)));
}

/// The download tool's arguments for `request`, writing files after `output_template`.
pub fn build_arguments(request: &DownloadRequest, output_template: &str) -> (r: Vec<String>)
    ensures
        r.deep_view() == download_arguments(request@, output_template@),
{
    let mut args: Vec<String> = Vec::new();
    push_text(&mut args, "-f");
    push_text(&mut args, request.format_id.as_str());
    push_text(&mut args, "--newline");
    push_text(&mut args, "-o");
    push_text(&mut args, output_template);
    let ghost head = args.deep_view();
    push_switch(&mut args, "--write-info-json", request.write_info_json);
    push_switch(&mut args, "--write-thumbnail", request.write_thumbnail);
    push_switch(&mut args, "--restrict-filenames", request.restrict_filenames);
    push_valued(&mut args, "--playlist-items", &request.playlist_items);
    push_valued(&mut args, "--match-filters", &request.match_filter);
    push_valued(&mut args, "--max-filesize", &request.max_filesize);
    let ghost before_post = args.deep_view();
    if request.extract_audio {
        push_text(&mut args, "--extract-audio");
        push_valued(&mut args, "--audio-format", &request.audio_format);
        push_valued(&mut args, "--audio-quality", &request.audio_quality);
    } else {
        push_valued(&mut args, "--remux-video", &request.remux_video);
    }
    assert(args.deep_view() =~= before_post + post_processing_args(request@));
    let embed = match request.embed_thumbnail {
        Some(b) => b,
        None => false,
    };
    push_switch(&mut args, "--embed-thumbnail", embed);
    push_valued(&mut args, "--sponsorblock-remove", &request.sponsorblock_remove);
    push_valued(&mut args, "--sponsorblock-mark", &request.sponsorblock_mark);
    push_text(&mut args, request.url.as_str());
    assert(head =~= seq!["-f"@, request.format_id@, "--newline"@, "-o"@, output_template@]);
    assert(args.deep_view() =~= download_arguments(request@, output_template@));
    args
}

} // verus!
