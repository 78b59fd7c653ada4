//! Text of documents packaged as zip archives: DOCX and EPUB. The archive
//! is read with the `zip` crate; which entries are read and how their text
//! is put together is decided here.

use vstd::prelude::*;
use std::io::Read;
use crate::text::{append_chars, from_chars, owned, to_chars, trim, trim_chars};
use crate::tools::ingestor::text_extractor::{
    epub_text_entry, is_epub_text_entry, markup_text, strip_html_tags, strip_xml_tags,
};

verus! {

/// What `zip::ZipArchive::new` makes of some bytes: the number of entries,
/// or the text of its error. It depends on the bytes alone.
pub uninterp spec fn zip_archive_len(bytes: Seq<u8>) -> Result<nat, Seq<char>>;

/// The name of entry `i` of a zip archive (`ZipArchive::by_index`, then
/// `ZipFile::name`), or nothing when that entry cannot be opened.
pub uninterp spec fn zip_entry_name(bytes: Seq<u8>, i: nat) -> Option<Seq<char>>;

/// The text of entry `i` of a zip archive (`ZipArchive::by_index`, then
/// `Read::read_to_string`), or the text of the error.
pub uninterp spec fn zip_entry_text(bytes: Seq<u8>, i: nat) -> Result<Seq<char>, Seq<char>>;

/// The entry of a zip archive with the given name (`ZipArchive::by_name`):
/// nothing when it cannot be opened, else its text (`read_to_string`) or
/// the text of the read error.
pub uninterp spec fn zip_named_text(bytes: Seq<u8>, name: Seq<char>) -> Option<Result<Seq<char>, Seq<char>>>;

/// Open a zip archive held in memory and count its entries. Trusted
/// wrapper of `zip::ZipArchive::new` and `ZipArchive::len`; the result is
/// `zip_archive_len` of the bytes.
#[verifier::external_body]
fn zip_len(bytes: &[u8]) -> (r: Result<usize, String>)
    ensures
        match r {
            Ok(n) => zip_archive_len(bytes@) == Ok::<nat, Seq<char>>(n as nat),
            Err(e) => zip_archive_len(bytes@) == Err::<nat, Seq<char>>(e@),
        },
{
    match zip::ZipArchive::new(std::io::Cursor::new(bytes)) {
        Ok(a) => Ok(a.len()),
        Err(e) => Err(e.to_string()),
    }
}

/// The name of entry `i`. Trusted wrapper of `ZipArchive::by_index` and
/// `ZipFile::name`; the result is `zip_entry_name` of the bytes and `i`.
#[verifier::external_body]
fn zip_name_at(bytes: &[u8], i: usize) -> (r: Option<String>)
    ensures
        match r {
            Some(n) => zip_entry_name(bytes@, i as nat) == Some(n@),
            None => zip_entry_name(bytes@, i as nat) is None,
        },
{
    let mut a = zip::ZipArchive::new(std::io::Cursor::new(bytes)).ok()?;
    let f = a.by_index(i).ok()?;
    Some(f.name().to_string())
}

/// The text of entry `i`. Trusted wrapper of `ZipArchive::by_index` and
/// `Read::read_to_string`; the result is `zip_entry_text` of the bytes and
/// `i`.
#[verifier::external_body]
fn zip_text_at(bytes: &[u8], i: usize) -> (r: Result<String, String>)
    ensures
        match r {
            Ok(t) => zip_entry_text(bytes@, i as nat) == Ok::<Seq<char>, Seq<char>>(t@),
            Err(e) => zip_entry_text(bytes@, i as nat) == Err::<Seq<char>, Seq<char>>(e@),
        },
{
    let mut a = zip::ZipArchive::new(std::io::Cursor::new(bytes)).map_err(|e| e.to_string())?;
    let mut f = a.by_index(i).map_err(|e| e.to_string())?;
    let mut s = String::new();
    f.read_to_string(&mut s).map_err(|e| e.to_string())?;
    Ok(s)
}

/// The text of the entry with the given name. Trusted wrapper of
/// `ZipArchive::by_name` and `Read::read_to_string`; the result is
/// `zip_named_text` of the bytes and the name.
#[verifier::external_body]
fn zip_text_by_name(bytes: &[u8], name: &str) -> (r: Option<Result<String, String>>)
    ensures
        match r {
            None => zip_named_text(bytes@, name@) is None,
            Some(Ok(t)) => zip_named_text(bytes@, name@) == Some(Ok::<Seq<char>, Seq<char>>(t@)),
            Some(Err(e)) => zip_named_text(bytes@, name@) == Some(Err::<Seq<char>, Seq<char>>(e@)),
        },
{
    let mut a = zip::ZipArchive::new(std::io::Cursor::new(bytes)).ok()?;
    let mut f = a.by_name(name).ok()?;
    let mut s = String::new();
    Some(f.read_to_string(&mut s).map(|_| s).map_err(|e| e.to_string()))
}

/// The text of a DOCX document: the markup text of its main part
/// `word/document.xml`; an archive or read error gives its text; a missing
/// or blank main part gives "Could not extract text from DOCX".
pub open spec fn docx_text(bytes: Seq<u8>) -> Result<Seq<char>, Seq<char>> {
    match zip_archive_len(bytes) {
        Err(e) => Err(e),
        Ok(_) => match zip_named_text(bytes, "word/document.xml"@) {
            Some(Ok(xml)) => if trim(markup_text(xml)).len() > 0 {
                Ok(markup_text(xml))
            } else {
                Err("Could not extract text from DOCX"@)
            },
            Some(Err(e)) => Err(e),
            None => Err("Could not extract text from DOCX"@),
        },
    }
}

/// The text of a DOCX document from what reading its archive gave: whether
/// it opened (`opened`) and what reading its main part gave (`main`).
pub open spec fn docx_text_of(opened: Result<nat, Seq<char>>, main: Option<Result<Seq<char>, Seq<char>>>) -> Result<Seq<char>, Seq<char>> {
    match opened {
        Err(e) => Err(e),
        Ok(_) => match main {
            Some(Ok(xml)) => if trim(markup_text(xml)).len() > 0 {
                Ok(markup_text(xml))
            } else {
                Err("Could not extract text from DOCX"@)
            },
            Some(Err(e)) => Err(e),
            None => Err("Could not extract text from DOCX"@),
        },
    }
}

/// The text of a DOCX document, given whether its archive opened and what
/// reading its main part gave; see `docx_text_of`.
pub fn docx_text_from_parts(opened: Result<usize, String>, main: Option<Result<String, String>>) -> (r:
    Result<String, String>)
    ensures
        match r {
            Ok(t) => docx_text_of(
                match opened {
                    Ok(n) => Ok(n as nat),
                    Err(e) => Err(e@),
                },
                match main {
                    Some(Ok(x)) => Some(Ok(x@)),
                    Some(Err(e)) => Some(Err(e@)),
                    None => None,
                },
            ) == Ok::<Seq<char>, Seq<char>>(t@),
            Err(e) => docx_text_of(
                match opened {
                    Ok(n) => Ok(n as nat),
                    Err(e) => Err(e@),
                },
                match main {
                    Some(Ok(x)) => Some(Ok(x@)),
                    Some(Err(e)) => Some(Err(e@)),
                    None => None,
                },
            ) == Err::<Seq<char>, Seq<char>>(e@),
        },
{
    match opened {
        Err(e) => return Err(e),
        Ok(_) => {},
    }
    let content = match main {
        Some(Ok(xml)) => strip_xml_tags(xml.as_str()),
        Some(Err(e)) => return Err(e),
        None => String::new(),
    };
    proof {
        reveal_strlit("");
    }
    let c = to_chars(content.as_str());
    if trim_chars(c.as_slice()).len() == 0 {
        return Err(owned("Could not extract text from DOCX"));
    }
    Ok(content)
}

/// Extract the text of a DOCX document held in memory; see `docx_text`.
pub fn docx_text_from_bytes(bytes: &[u8]) -> (r: Result<String, String>)
    ensures
        match r {
            Ok(t) => docx_text(bytes@) == Ok::<Seq<char>, Seq<char>>(t@),
            Err(e) => docx_text(bytes@) == Err::<Seq<char>, Seq<char>>(e@),
        },
{
    let opened = zip_len(bytes);
    let main = match opened {
        Ok(_) => zip_text_by_name(bytes, "word/document.xml"),
        Err(_) => None,
    };
    docx_text_from_parts(opened, main)
}

/// Add one entry of an EPUB archive to the text gathered so far, given its
/// name (none when it cannot be opened) and, for a page, what reading it
/// gave: a page read adds its markup text and a blank line; a read error is
/// returned; other entries add nothing.
pub fn epub_add_entry(gathered: &mut Vec<char>, name: Option<&str>, read: Option<Result<String, String>>) -> (r: Result<(), String>)
    requires
        name matches Some(n) && epub_text_entry(n@) ==> read is Some,
    ensures
        match name {
            Some(n) => if epub_text_entry(n@) {
                match read {
                    Some(Ok(t)) => r is Ok && final(gathered)@ == old(gathered)@ + markup_text(t@) + "\n\n"@,
                    Some(Err(e)) => (r matches Err(x) && x@ == e@) && final(gathered)@ == old(gathered)@,
                    None => false,
                }
            } else {
                r is Ok && final(gathered)@ == old(gathered)@
            },
            None => r is Ok && final(gathered)@ == old(gathered)@,
        },
{
    match name {
        Some(n) => {
            if is_epub_text_entry(n) {
                match read {
                    Some(Ok(html)) => {
                        let page = strip_html_tags(html.as_str());
                        append_chars(gathered, to_chars(page.as_str()).as_slice());
                        append_chars(gathered, to_chars("\n\n").as_slice());
                        Ok(())
                    },
                    Some(Err(e)) => Err(e),
                    None => Ok(()),
                }
            } else {
                Ok(())
            }
        },
        None => Ok(()),
    }
}

/// The text gathered from the first `n` entries of an EPUB archive: each
/// entry named as a page (`epub_text_entry`) adds its markup text and a
/// blank line; an entry that cannot be opened is passed over; a read error
/// ends the gathering with its text.
pub open spec fn epub_pages(bytes: Seq<u8>, n: nat) -> Result<Seq<char>, Seq<char>>
    decreases n,
{
    if n == 0 {
        Ok(Seq::empty())
    } else {
        match epub_pages(bytes, (n - 1) as nat) {
            Err(e) => Err(e),
            Ok(acc) => match zip_entry_name(bytes, (n - 1) as nat) {
                Some(name) => if epub_text_entry(name) {
                    match zip_entry_text(bytes, (n - 1) as nat) {
                        Ok(t) => Ok(acc + markup_text(t) + "\n\n"@),
                        Err(e) => Err(e),
                    }
                } else {
                    Ok(acc)
                },
                None => Ok(acc),
            },
        }
    }
}

/// The text of an EPUB document: its pages in archive order; an archive or
/// read error gives its text; no text gives "Could not extract text from
/// EPUB".
pub open spec fn epub_text(bytes: Seq<u8>) -> Result<Seq<char>, Seq<char>> {
    match zip_archive_len(bytes) {
        Err(e) => Err(e),
        Ok(n) => match epub_pages(bytes, n) {
            Err(e) => Err(e),
            Ok(t) => if trim(t).len() > 0 {
                Ok(t)
            } else {
                Err("Could not extract text from EPUB"@)
            },
        },
    }
}

/// Extract the text of an EPUB document held in memory; see `epub_text`.
pub fn epub_text_from_bytes(bytes: &[u8]) -> (r: Result<String, String>)
    ensures
        match r {
            Ok(t) => epub_text(bytes@) == Ok::<Seq<char>, Seq<char>>(t@),
            Err(e) => epub_text(bytes@) == Err::<Seq<char>, Seq<char>>(e@),
        },
{
    let n = match zip_len(bytes) {
        Err(e) => return Err(e),
        Ok(n) => n,
    };
    let mut content: Vec<char> = Vec::new();
    let mut i: usize = 0;
    while i < n
        invariant
            i <= n,
            zip_archive_len(bytes@) == Ok::<nat, Seq<char>>(n as nat),
            epub_pages(bytes@, i as nat) == Ok::<Seq<char>, Seq<char>>(content@),
        decreases n - i,
    {
        let name = zip_name_at(bytes, i);
        let read = match &name {
            Some(nm) => if is_epub_text_entry(nm.as_str()) {
                Some(zip_text_at(bytes, i))
            } else {
                None
            },
            None => None,
        };
        let nref: Option<&str> = match &name {
            Some(nm) => Some(nm.as_str()),
            None => None,
        };
        match epub_add_entry(&mut content, nref, read) {
            Ok(()) => {},
            Err(e) => {
                assert(epub_pages(bytes@, (i + 1) as nat) == Err::<Seq<char>, Seq<char>>(e@));
                assert(epub_pages(bytes@, n as nat) == Err::<Seq<char>, Seq<char>>(e@)) by {
                    lemma_epub_error_stays(bytes@, (i + 1) as nat, n as nat, e@);
                }
                return Err(e);
            },
        }
        i += 1;
    }
    if trim_chars(content.as_slice()).len() == 0 {
        return Err(owned("Could not extract text from EPUB"));
    }
    Ok(from_chars(content.as_slice()))
}

proof fn lemma_epub_error_stays(bytes: Seq<u8>, k: nat, n: nat, e: Seq<char>)
    requires
        k <= n,
        epub_pages(bytes, k) == Err::<Seq<char>, Seq<char>>(e),
    ensures
        epub_pages(bytes, n) == Err::<Seq<char>, Seq<char>>(e),
    decreases n - k,
{
    if k < n {
        lemma_epub_error_stays(bytes, k + 1, n, e);
    }
}

} // verus!
