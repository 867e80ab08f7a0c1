//! The names and the frame log of an animation: where each frame is
//! written, what the encoder is told, and what the log holds of each frame.

use crate::text::{
    decimal, lemma_number_of_zero_padded, number_of, push_decimal, push_zero_padded, zero_padded,
};
use vstd::prelude::*;

verus! {

/// What every frame file's name starts with.
pub open spec fn frame_prefix_of(frames_dir: Seq<char>, output_path: Seq<char>) -> Seq<char> {
    frames_dir + "/"@ + output_path + "_frame_"@
}

/// The file of the frame with the given index: its number has four digits,
/// or as many as it needs.
pub open spec fn frame_path_of(frames_dir: Seq<char>, output_path: Seq<char>, index: nat) -> Seq<
    char,
> {
    frame_prefix_of(frames_dir, output_path) + zero_padded(index, 4) + ".png"@
}

/// The pattern by which the encoder finds the frame files, the number in
/// `printf` notation.
pub open spec fn frame_pattern_of(frames_dir: Seq<char>, output_path: Seq<char>) -> Seq<char> {
    frame_prefix_of(frames_dir, output_path) + "%04d"@ + ".png"@
}

/// The file of the frame log.
pub open spec fn log_path_of(output_path: Seq<char>) -> Seq<char> {
    output_path + ".log"@
}

/// The file of the video.
pub open spec fn video_path_of(output_path: Seq<char>) -> Seq<char> {
    output_path + ".mp4"@
}

/// What the encoder is called with, one argument after the other: overwrite,
/// the frame rate, the frames, the codec, the pixel format, the video's file.
pub open spec fn encoder_arguments_of(
    rate: Seq<char>,
    frames_dir: Seq<char>,
    output_path: Seq<char>,
) -> Seq<Seq<char>> {
    seq![
        "-y"@,
        "-r"@,
        rate,
        "-i"@,
        frame_pattern_of(frames_dir, output_path),
        "-c:v"@,
        "libx264"@,
        "-pix_fmt"@,
        "yuv420p"@,
        video_path_of(output_path),
    ]
}

/// The first line of the frame log.
pub open spec fn log_header_of() -> Seq<char> {
    "Frame,Time,X,Y,Zoom"@
}

/// The log's line for the frame with the given index: the frame's number,
/// which counts from 1, then its time, centre and zoom as they were
/// written out.
pub open spec fn log_row_of(
    index: nat,
    time: Seq<char>,
    x: Seq<char>,
    y: Seq<char>,
    zoom: Seq<char>,
) -> Seq<char> {
    decimal(index + 1) + ","@ + time + ","@ + x + ","@ + y + ","@ + zoom
}

/// How far frame `index` of `total` lies along the way from the first frame
/// to the last, as the fraction `.0 / .1`: the first frame is at 0 and the
/// last at 1, and a sequence of a single frame stays at 0.
pub open spec fn progress_of(index: int, total: int) -> (int, int) {
    if total > 1 {
        (index, total - 1)
    } else {
        (0, 1)
    }
}

/// Two frames of one animation never share a file: frames with different
/// indices have different paths.
pub proof fn lemma_frame_paths_differ(
    frames_dir: Seq<char>,
    output_path: Seq<char>,
    first: nat,
    second: nat,
)
    requires
        first != second,
    ensures
        frame_path_of(frames_dir, output_path, first) != frame_path_of(
            frames_dir,
            output_path,
            second,
        ),
{
    let prefix = frame_prefix_of(frames_dir, output_path);
    let one = zero_padded(first, 4);
    let other = zero_padded(second, 4);
    let left = frame_path_of(frames_dir, output_path, first);
    let right = frame_path_of(frames_dir, output_path, second);
    lemma_number_of_zero_padded(first, 4);
    lemma_number_of_zero_padded(second, 4);
    if left == right {
        assert(left.len() == prefix.len() + one.len() + ".png"@.len());
        assert(right.len() == prefix.len() + other.len() + ".png"@.len());
        assert forall|k: int| 0 <= k < one.len() implies one[k] == other[k] by {
            assert(left[prefix.len() + k] == one[k]);
            assert(right[prefix.len() + k] == other[k]);
        }
        assert(one =~= other);
        assert(number_of(one) == number_of(other));
    }
}

fn frame_prefix(frames_dir: &str, output_path: &str) -> (prefix: String)
    ensures
        prefix@ == frame_prefix_of(frames_dir@, output_path@),
{
    let mut prefix = String::from_str(frames_dir);
    prefix.append("/");
    prefix.append(output_path);
    prefix.append("_frame_");
    prefix
}

/// The path of the file that frame `index` is written to.
pub fn frame_path(frames_dir: &str, output_path: &str, index: u32) -> (path: String)
    ensures
        path@ == frame_path_of(frames_dir@, output_path@, index as nat),
{
    let mut path = frame_prefix(frames_dir, output_path);
    push_zero_padded(&mut path, index as u64, 4);
    path.append(".png");
    path
}

/// The paths of the files of the frames 0 to `total - 1`, in order.
pub fn frame_paths(frames_dir: &str, output_path: &str, total: u32) -> (paths: Vec<String>)
    ensures
        paths@.len() == total,
        forall|i: int|
            0 <= i < total ==> (#[trigger] paths@[i])@ == frame_path_of(
                frames_dir@,
                output_path@,
                i as nat,
            ),
{
    let mut paths: Vec<String> = Vec::new();
    let mut index: u32 = 0;
    while index < total
        invariant
            index <= total,
            paths@.len() == index,
            forall|i: int|
                0 <= i < index ==> (#[trigger] paths@[i])@ == frame_path_of(
                    frames_dir@,
                    output_path@,
                    i as nat,
                ),
        decreases total - index,
    {
        paths.push(frame_path(frames_dir, output_path, index));
        index = index + 1;
    }
    paths
}

/// The pattern that names all frame files to the encoder.
pub fn frame_pattern(frames_dir: &str, output_path: &str) -> (pattern: String)
    ensures
        pattern@ == frame_pattern_of(frames_dir@, output_path@),
{
    let mut pattern = frame_prefix(frames_dir, output_path);
    pattern.append("%04d");
    pattern.append(".png");
    pattern
}

/// The path of the frame log.
pub fn log_path(output_path: &str) -> (path: String)
    ensures
        path@ == log_path_of(output_path@),
{
    let mut path = String::from_str(output_path);
    path.append(".log");
    path
}

/// The path of the video.
pub fn video_path(output_path: &str) -> (path: String)
    ensures
        path@ == video_path_of(output_path@),
{
    let mut path = String::from_str(output_path);
    path.append(".mp4");
    path
}

/// The arguments for the encoder, given the frame rate as text.
pub fn encoder_arguments(rate: &str, frames_dir: &str, output_path: &str) -> (arguments: Vec<
    String,
>)
    ensures
        arguments@.map_values(|argument: String| argument@) == encoder_arguments_of(
            rate@,
            frames_dir@,
            output_path@,
        ),
{
    let mut arguments: Vec<String> = Vec::new();
    arguments.push(String::from_str("-y"));
    arguments.push(String::from_str("-r"));
    arguments.push(String::from_str(rate));
    arguments.push(String::from_str("-i"));
    arguments.push(frame_pattern(frames_dir, output_path));
    arguments.push(String::from_str("-c:v"));
    arguments.push(String::from_str("libx264"));
    arguments.push(String::from_str("-pix_fmt"));
    arguments.push(String::from_str("yuv420p"));
    arguments.push(video_path(output_path));
    assert(arguments@.map_values(|argument: String| argument@) =~= encoder_arguments_of(
        rate@,
        frames_dir@,
        output_path@,
    ));
    arguments
}

/// The first line of the frame log.
pub fn log_header() -> (header: String)
    ensures
        header@ == log_header_of(),
{
    String::from_str("Frame,Time,X,Y,Zoom")
}

/// The log's line for frame `index`, whose time, centre and zoom come
/// already written out.
pub fn log_row(index: u32, time: &str, x: &str, y: &str, zoom: &str) -> (row: String)
    ensures
        row@ == log_row_of(index as nat, time@, x@, y@, zoom@),
{
    let mut row = String::new();
    push_decimal(&mut row, index as u64 + 1);
    row.append(",");
    row.append(time);
    row.append(",");
    row.append(x);
    row.append(",");
    row.append(y);
    row.append(",");
    row.append(zoom);
    assert(row@ =~= log_row_of(index as nat, time@, x@, y@, zoom@));
    row
}

/// How far frame `index` of `total` lies along the way from the first frame
/// to the last, as a numerator and a denominator.
pub fn progress(index: u32, total: u32) -> (fraction: (u32, u32))
    ensures
        (fraction.0 as int, fraction.1 as int) == progress_of(index as int, total as int),
        fraction.1 > 0,
{
    if total > 1 {
        (index, total - 1)
    } else {
        (0, 1)
    }
}

} // verus!
