//! Search hits: how the stored fields of a document become a hit, and how a
//! size is written for people.

use vstd::prelude::*;
use vstd::string::StringExecFns;
use crate::document::{
    document_of, first_value, lemma_first_value_content, stored_mime, FileDocument, FieldName,
};
use crate::error::IndexError;
use crate::file_info::FileInfoView;
use crate::fixed::{hundredths_text, push_hundredths, round_ratio, rounded_ratio};
use crate::text::{decimal, lemma_parse_decimal_roundtrip, parse_decimal, parse_u64, push_decimal};

verus! {

/// Bytes in a kibibyte.
pub const KIB: u64 = 1024;

/// Bytes in a mebibyte.
pub const MIB: u64 = 1_048_576;

/// Bytes in a gibibyte.
pub const GIB: u64 = 1_073_741_824;

/// Bytes in a tebibyte.
pub const TIB: u64 = 1_099_511_627_776;

/// A line of a file that matches a query. Reserved for highlighting.
#[derive(Clone, Debug)]
pub struct SearchMatch {
    pub line: usize,
    pub content: String,
}

/// One hit of a search.
#[derive(Clone, Debug)]
pub struct SearchDoc {
    pub path: String,
    pub name: String,
    pub size: u64,
    pub size_formatted: String,
    pub modified_formatted: String,
    pub mime_type: String,
    pub is_dir: bool,
    pub matches: Option<Vec<SearchMatch>>,
}

/// `size` bytes in the unit `unit`, with two decimals, rounded to the
/// nearest hundredth.
pub open spec fn scaled_text(size: nat, unit: nat) -> Seq<char> {
    hundredths_text(rounded_ratio(size * 100, unit))
}

/// A size for people: in bytes below a kibibyte, else with two decimals in
/// the largest of KiB, MiB, GiB and TiB that it reaches.
pub open spec fn format_size_text(size: nat) -> Seq<char> {
    if size >= TIB {
        scaled_text(size, TIB as nat) + " TiB"@
    } else if size >= GIB {
        scaled_text(size, GIB as nat) + " GiB"@
    } else if size >= MIB {
        scaled_text(size, MIB as nat) + " MiB"@
    } else if size >= KIB {
        scaled_text(size, KIB as nat) + " KiB"@
    } else {
        decimal(size) + " B"@
    }
}

/// Appends `size` in the unit `unit`, with two decimals.
fn push_scaled(s: &mut String, size: u64, unit: u64)
    requires
        unit >= 1024,
    ensures
        final(s)@ == old(s)@ + scaled_text(size as nat, unit as nat),
{
    let num: u128 = (size as u128) * 100;
    let h: u128 = round_ratio(num, unit as u128);
    assert(h <= u64::MAX) by {
        let q = num as int / unit as int;
        assert(q * unit <= num) by (nonlinear_arith)
            requires
                q == num as int / unit as int,
                unit > 0,
                num >= 0,
        ;
        assert(q * 1024 <= num) by (nonlinear_arith)
            requires
                q * unit <= num,
                unit >= 1024,
                q >= 0,
        ;
    }
    push_hundredths(s, h as u64);
}

/// Writes a size for people.
pub fn format_size(size: u64) -> (text: String)
    ensures
        text@ == format_size_text(size as nat),
{
    let mut s = String::new();
    if size >= TIB {
        push_scaled(&mut s, size, TIB);
        s.append(" TiB");
    } else if size >= GIB {
        push_scaled(&mut s, size, GIB);
        s.append(" GiB");
    } else if size >= MIB {
        push_scaled(&mut s, size, MIB);
        s.append(" MiB");
    } else if size >= KIB {
        push_scaled(&mut s, size, KIB);
        s.append(" KiB");
    } else {
        push_decimal(&mut s, size);
        s.append(" B");
    }
    assert(s@ =~= format_size_text(size as nat));
    s
}

/// The size that a hit shows: the stored decimal where it can be read and
/// fits in 64 bits, else zero.
pub open spec fn hit_size(doc: Seq<(FieldName, Seq<char>)>) -> u64 {
    match first_value(doc, FieldName::Size) {
        Some(s) => match parse_decimal(s) {
            Some(v) => if v <= u64::MAX {
                v as u64
            } else {
                0
            },
            None => 0,
        },
        None => 0,
    }
}

/// The media type that a hit shows: the stored one, or the empty text.
pub open spec fn hit_mime(doc: Seq<(FieldName, Seq<char>)>) -> Seq<char> {
    match first_value(doc, FieldName::MimeType) {
        Some(m) => m,
        None => Seq::empty(),
    }
}

impl SearchDoc {
    /// What holds of every hit: the size is written as `format_size` writes
    /// it, the modification time is the placeholder, an entry counts as a
    /// directory exactly if it has no media type, and there are no matches.
    pub open spec fn wf(&self) -> bool {
        &&& self.size_formatted@ == format_size_text(self.size as nat)
        &&& self.modified_formatted@ == "Unknown"@
        &&& self.is_dir == (self.mime_type@.len() == 0)
        &&& self.matches is None
    }

    /// This hit is the one that the stored fields `doc` give.
    pub open spec fn shows(&self, doc: Seq<(FieldName, Seq<char>)>) -> bool {
        &&& self.wf()
        &&& first_value(doc, FieldName::Path) == Some(self.path@)
        &&& first_value(doc, FieldName::Name) == Some(self.name@)
        &&& self.size == hit_size(doc)
        &&& self.mime_type@ == hit_mime(doc)
    }
}

/// The failure of a document that cannot become a hit, if there is one: a
/// hit needs its stored path and its stored name.
pub open spec fn hit_failure(doc: Seq<(FieldName, Seq<char>)>) -> Option<IndexError> {
    if first_value(doc, FieldName::Path) is None {
        Some(IndexError::MissingPath)
    } else if first_value(doc, FieldName::Name) is None {
        Some(IndexError::MissingName)
    } else {
        None
    }
}

/// Makes the hit of the stored fields of one document.
pub fn project_hit(doc: &FileDocument) -> (r: Result<SearchDoc, IndexError>)
    ensures
        match hit_failure(doc@) {
            Some(e) => r == Err::<SearchDoc, IndexError>(e),
            None => r is Ok && r->Ok_0.shows(doc@),
        },
{
    let path: String = match doc.get_first(FieldName::Path) {
        Some(p) => p.clone(),
        None => {
            return Err(IndexError::MissingPath);
        },
    };
    let name: String = match doc.get_first(FieldName::Name) {
        Some(n) => n.clone(),
        None => {
            return Err(IndexError::MissingName);
        },
    };
    let size: u64 = match doc.get_first(FieldName::Size) {
        Some(s) => match parse_u64(s.as_str()) {
            Some(v) => v,
            None => 0,
        },
        None => 0,
    };
    let mime_type: String = match doc.get_first(FieldName::MimeType) {
        Some(m) => m.clone(),
        None => String::new(),
    };
    let is_dir = mime_type.as_str().unicode_len() == 0;
    Ok(
        SearchDoc {
            path,
            name,
            size,
            size_formatted: format_size(size),
            modified_formatted: String::from_str("Unknown"),
            mime_type,
            is_dir,
            matches: None,
        },
    )
}

/// What was indexed is what a hit shows: the document of a file record
/// always becomes a hit, and that hit has the record's path, name, size and
/// media type.
pub proof fn lemma_hit_shows_record(info: FileInfoView, hit: SearchDoc)
    requires
        hit.shows(document_of(info)),
    ensures
        hit_failure(document_of(info)) is None,
        hit.path@ == info.path,
        hit.name@ == info.name,
        hit.size == info.size,
        hit.mime_type@ == stored_mime(info),
        hit.is_dir == (info.mime_type is None || info.mime_type->Some_0.len() == 0),
{
    lemma_first_value_content(info);
    lemma_parse_decimal_roundtrip(info.size as nat);
}

/// The document of a file record never fails to become a hit.
pub proof fn lemma_record_always_projects(info: FileInfoView)
    ensures
        hit_failure(document_of(info)) is None,
        hit_size(document_of(info)) == info.size,
        hit_mime(document_of(info)) == stored_mime(info),
{
    lemma_first_value_content(info);
    lemma_parse_decimal_roundtrip(info.size as nat);
}

} // verus!
