//! The assembler: joins the persisted segments, in manifest order, into one
//! stream for the transcoder, and interprets the transcoder's exit.

use vstd::prelude::*;
use crate::error::DownloadError;
use crate::naming::{get_segment_filename, segment_file_name};

verus! {

/// The bytes of each part; a missing part counts as empty.
pub open spec fn part_bytes(parts: Seq<Option<Vec<u8>>>) -> Seq<Seq<u8>> {
    parts.map_values(|p: Option<Vec<u8>>| match p {
        Some(v) => v@,
        None => Seq::<u8>::empty(),
    })
}

/// Every part is present.
pub open spec fn all_present(parts: Seq<Option<Vec<u8>>>) -> bool {
    forall|i: int| 0 <= i < parts.len() ==> parts[i] is Some
}

/// The file names under which the segments with URIs `uris` are persisted,
/// position by position: the names the fetcher writes to.
pub fn segment_file_names(uris: &Vec<String>) -> (r: Vec<String>)
    ensures
        r@.len() == uris@.len(),
        forall|i: int| 0 <= i < uris@.len() ==> r@[i]@ == segment_file_name(uris@[i]@, i as nat),
{
    let mut r: Vec<String> = Vec::new();
    let mut i: usize = 0;
    while i < uris.len()
        invariant
            i <= uris@.len(),
            r@.len() == i,
            forall|k: int| 0 <= k < i ==> r@[k]@ == segment_file_name(uris@[k]@, k as nat),
        decreases uris@.len() - i,
    {
        r.push(get_segment_filename(uris[i].as_str(), i));
        i = i + 1;
    }
    r
}

/// Concatenates the segments' bytes in manifest order, the order of `parts`,
/// whatever order they were fetched in. `parts[i]` holds the persisted bytes
/// of the segment at position `i`, or `None` when its file is absent, which
/// is a `MissingSegment` error for the first such position.
pub fn assemble_segments(parts: &Vec<Option<Vec<u8>>>) -> (r: Result<Vec<u8>, DownloadError>)
    ensures
        all_present(parts@) ==> (r matches Ok(v) && v@ == part_bytes(parts@).flatten()),
        !all_present(parts@) ==> (r matches Err(DownloadError::MissingSegment(p)) && p < parts@.len()
            && parts@[p as int] is None && forall|i: int| 0 <= i < p ==> parts@[i] is Some),
{
    let mut out: Vec<u8> = Vec::new();
    let mut i: usize = 0;
    while i < parts.len()
        invariant
            i <= parts@.len(),
            forall|k: int| 0 <= k < i ==> parts@[k] is Some,
            out@ == part_bytes(parts@.take(i as int)).flatten(),
        decreases parts@.len() - i,
    {
        match &parts[i] {
            None => {
                return Err(DownloadError::MissingSegment(i));
            },
            Some(bytes) => {
                let ghost before = out@;
                let mut j: usize = 0;
                while j < bytes.len()
                    invariant
                        j <= bytes@.len(),
                        out@ == before + bytes@.take(j as int),
                    decreases bytes@.len() - j,
                {
                    out.push(bytes[j]);
                    assert(out@ =~= before + bytes@.take(j + 1));
                    j = j + 1;
                }
                proof {
                    assert(bytes@.take(j as int) =~= bytes@);
                    assert(part_bytes(parts@.take(i + 1)) =~= part_bytes(parts@.take(i as int)).push(bytes@));
                    part_bytes(parts@.take(i as int)).lemma_flatten_push(bytes@);
                }
                i = i + 1;
            },
        }
    }
    assert(parts@.take(i as int) =~= parts@);
    Ok(out)
}

/// Arguments for the external transcoder: read `input`, copy the streams
/// without re-encoding, fix up the AAC audio bitstream, and overwrite `output`.
pub fn transcode_args(input: &str, output: &str) -> (r: Vec<String>)
    ensures
        r@.len() == 8,
        r@[0]@ == "-i"@,
        r@[1]@ == input@,
        r@[2]@ == "-c"@,
        r@[3]@ == "copy"@,
        r@[4]@ == "-bsf:a"@,
        r@[5]@ == "aac_adtstoasc"@,
        r@[6]@ == "-y"@,
        r@[7]@ == output@,
{
    let mut r: Vec<String> = Vec::new();
    r.push(String::from_str("-i"));
    r.push(input.to_owned());
    r.push(String::from_str("-c"));
    r.push(String::from_str("copy"));
    r.push(String::from_str("-bsf:a"));
    r.push(String::from_str("aac_adtstoasc"));
    r.push(String::from_str("-y"));
    r.push(output.to_owned());
    r
}

/// What the transcoder's exit means: success, or an `AssembleError` that carries its
/// diagnostic output.
pub fn transcode_result(exit_success: bool, diagnostics: String) -> (r: Result<(), DownloadError>)
    ensures
        exit_success ==> r is Ok,
        !exit_success ==> (r matches Err(DownloadError::AssembleError(d)) && d == diagnostics),
{
    if exit_success {
        Ok(())
    } else {
        Err(DownloadError::AssembleError(diagnostics))
    }
}

} // verus!
