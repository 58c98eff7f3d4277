//! Files handed to a file input: the name and MIME type under which the
//! contents of a file on disk are offered to the page.

use vstd::prelude::*;
use crate::text::str_eq;
use crate::types::InputFile;

verus! {

/// The name of a file whose path yields none.
pub const DEFAULT_FILE_NAME: &'static str = "file";

/// The MIME type of a file whose extension says nothing.
pub const DEFAULT_MIME_TYPE: &'static str = "application/octet-stream";

/// The MIME type that an extension stands for. Extensions are compared as
/// they are written: `PNG` is not `png`.
pub open spec fn mime_for(extension: Option<Seq<char>>) -> Seq<char> {
    match extension {
        Some(ext) => if ext == "txt"@ {
            "text/plain"@
        } else if ext == "html"@ || ext == "htm"@ {
            "text/html"@
        } else if ext == "css"@ {
            "text/css"@
        } else if ext == "js"@ {
            "application/javascript"@
        } else if ext == "json"@ {
            "application/json"@
        } else if ext == "xml"@ {
            "application/xml"@
        } else if ext == "pdf"@ {
            "application/pdf"@
        } else if ext == "png"@ {
            "image/png"@
        } else if ext == "jpg"@ || ext == "jpeg"@ {
            "image/jpeg"@
        } else if ext == "gif"@ {
            "image/gif"@
        } else if ext == "svg"@ {
            "image/svg+xml"@
        } else if ext == "webp"@ {
            "image/webp"@
        } else if ext == "zip"@ {
            "application/zip"@
        } else if ext == "csv"@ {
            "text/csv"@
        } else {
            DEFAULT_MIME_TYPE@
        },
        None => DEFAULT_MIME_TYPE@,
    }
}

/// The MIME type for a file with the given extension, if it has one.
pub fn mime_type_for_extension(extension: Option<&str>) -> (mime: &'static str)
    ensures
        mime@ == mime_for(
            match extension {
                Some(ext) => Some(ext@),
                None => None,
            },
        ),
{
    match extension {
        Some(ext) => {
            if str_eq(ext, "txt") {
                "text/plain"
            } else if str_eq(ext, "html") || str_eq(ext, "htm") {
                "text/html"
            } else if str_eq(ext, "css") {
                "text/css"
            } else if str_eq(ext, "js") {
                "application/javascript"
            } else if str_eq(ext, "json") {
                "application/json"
            } else if str_eq(ext, "xml") {
                "application/xml"
            } else if str_eq(ext, "pdf") {
                "application/pdf"
            } else if str_eq(ext, "png") {
                "image/png"
            } else if str_eq(ext, "jpg") || str_eq(ext, "jpeg") {
                "image/jpeg"
            } else if str_eq(ext, "gif") {
                "image/gif"
            } else if str_eq(ext, "svg") {
                "image/svg+xml"
            } else if str_eq(ext, "webp") {
                "image/webp"
            } else if str_eq(ext, "zip") {
                "application/zip"
            } else if str_eq(ext, "csv") {
                "text/csv"
            } else {
                DEFAULT_MIME_TYPE
            }
        },
        None => DEFAULT_MIME_TYPE,
    }
}

/// The file to hand to a file input for contents read from a path: under
/// the last component of the path, or under `file` where the path has none
/// that is text, and with the MIME type of its extension.
pub fn input_file(name: Option<&str>, extension: Option<&str>, data: Vec<u8>) -> (file: InputFile)
    ensures
        file.name@ == match name {
            Some(n) => n@,
            None => DEFAULT_FILE_NAME@,
        },
        file.mime_type@ == mime_for(
            match extension {
                Some(ext) => Some(ext@),
                None => None,
            },
        ),
        file.data == data,
{
    let name = match name {
        Some(n) => String::from_str(n),
        None => String::from_str(DEFAULT_FILE_NAME),
    };
    let mime_type = String::from_str(mime_type_for_extension(extension));
    InputFile { name, mime_type, data }
}

} // verus!
