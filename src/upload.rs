//! Uploads of files whose kind is sniffed from their content.
use vstd::prelude::*;
use crate::api::{path_template, request_url, ApiPath};
use crate::error::{validation, ClientError, ClientErrorView};

verus! {

/// Whether infer recognises the bytes as an image.
pub uninterp spec fn sniffed_image(b: Seq<u8>) -> bool;

/// Whether infer recognises the bytes as audio.
pub uninterp spec fn sniffed_audio(b: Seq<u8>) -> bool;

/// The file type that infer finds first for the bytes, as its extension and
/// its MIME type.
pub uninterp spec fn sniffed_type(b: Seq<u8>) -> Option<(Seq<char>, Seq<char>)>;

/// Relies on infer::is_image: some image matcher accepts the bytes. infer::get
/// tries the same matchers, so it then finds a type too.
#[verifier::external_body]
fn is_image(b: &[u8]) -> (r: bool)
    ensures
        r == sniffed_image(b@),
        r ==> sniffed_type(b@) is Some,
{
    infer::is_image(b)
}

/// Relies on infer::is_audio: some audio matcher accepts the bytes. infer::get
/// tries the same matchers, so it then finds a type too.
#[verifier::external_body]
fn is_audio(b: &[u8]) -> (r: bool)
    ensures
        r == sniffed_audio(b@),
        r ==> sniffed_type(b@) is Some,
{
    infer::is_audio(b)
}

/// Relies on infer::get for the first matching file type, and on its
/// Type::extension and Type::mime_type.
#[verifier::external_body]
fn sniff(b: &[u8]) -> (r: Option<(String, String)>)
    ensures
        match r {
            Some((ext, mime)) => sniffed_type(b@) == Some((ext@, mime@)),
            None => sniffed_type(b@) is None,
        },
{
    match infer::get(b) {
        Some(kind) => Some((String::from(kind.extension()), String::from(kind.mime_type()))),
        None => None,
    }
}

/// Where a file goes, and the name and MIME type under which it is sent.
#[derive(Debug)]
pub struct UploadPlan {
    pub url: String,
    pub file_name: String,
    pub mime_type: String,
}

/// The extension of a sniffed type.
pub open spec fn extension_of(kind: Option<(Seq<char>, Seq<char>)>) -> Seq<char> {
    match kind {
        Some((ext, _)) => ext,
        None => Seq::empty(),
    }
}

/// The MIME type of a sniffed type.
pub open spec fn mime_of(kind: Option<(Seq<char>, Seq<char>)>) -> Seq<char> {
    match kind {
        Some((_, mime)) => mime,
        None => Seq::empty(),
    }
}

/// Whether a plan sends the file of type `kind` to `url`, named `stem`
/// followed by the extension of its type.
pub open spec fn plans(p: UploadPlan, url: Seq<char>, stem: Seq<char>, kind: Option<(Seq<char>, Seq<char>)>) -> bool {
    &&& kind is Some
    &&& p.url@ == url
    &&& p.file_name@ == stem + extension_of(kind)
    &&& p.mime_type@ == mime_of(kind)
}

/// `stem` followed by the extension of the sniffed type.
fn name_plan(url: String, stem: &str, file: &[u8]) -> (r: UploadPlan)
    requires
        sniffed_type(file@) is Some,
    ensures
        plans(r, url@, stem@, sniffed_type(file@)),
{
    match sniff(file) {
        Some((ext, mime)) => {
            UploadPlan { url, file_name: String::from_str(stem).concat(ext.as_str()), mime_type: mime }
        },
        None => {
            assert(false);
            UploadPlan { url, file_name: String::new(), mime_type: String::new() }
        },
    }
}

/// An image upload: rejected unless the bytes are an image; else sent as
/// `image_file.<extension>` with the sniffed MIME type.
pub fn prepare_files_upload(base_url: &str, file: &[u8]) -> (r: Result<UploadPlan, ClientError>)
    ensures
        match r {
            Ok(p) => sniffed_image(file@) && plans(
                p,
                base_url@ + path_template(ApiPath::FilesUpload),
                "image_file."@,
                sniffed_type(file@),
            ),
            Err(e) => !sniffed_image(file@) && e@ == ClientErrorView::Validation(
                "FilesUploadRequest.File Illegal"@,
            ),
        },
{
    if !is_image(file) {
        return Err(validation("FilesUploadRequest.File Illegal"));
    }
    Ok(name_plan(request_url(base_url, ApiPath::FilesUpload), "image_file.", file))
}

/// A speech upload: rejected unless the bytes are audio; else sent as
/// `audio_file.<extension>` with the sniffed MIME type.
pub fn prepare_audio_to_text(base_url: &str, file: &[u8]) -> (r: Result<UploadPlan, ClientError>)
    ensures
        match r {
            Ok(p) => sniffed_audio(file@) && plans(
                p,
                base_url@ + path_template(ApiPath::AudioToText),
                "audio_file."@,
                sniffed_type(file@),
            ),
            Err(e) => !sniffed_audio(file@) && e@ == ClientErrorView::Validation(
                "AudioToTextRequest.File Illegal"@,
            ),
        },
{
    if !is_audio(file) {
        return Err(validation("AudioToTextRequest.File Illegal"));
    }
    Ok(name_plan(request_url(base_url, ApiPath::AudioToText), "audio_file.", file))
}

} // verus!
