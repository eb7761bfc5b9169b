use vstd::prelude::*;

use crate::decrypter::{DecryptError, InitError, HEADER_LEN};
use crate::encryption_key::ParseError as InvalidEncryptionKeyError;
use crate::pipeline::{DecryptionError, FileFailure, FileOp, ScanFailure};
use crate::system_json::ParseError as ParseSystemJsonError;
use crate::text::{char_text, decimal, decimal_spec};
use vstd::string::StringExecFns;

verus! {

/// What is said of a malformed key; positions count from one.
pub open spec fn invalid_key_text(e: InvalidEncryptionKeyError) -> Seq<char> {
    match e {
        InvalidEncryptionKeyError::InvalidCharacter { c, index } => "invalid character '"@ + seq![c]
            + "' at position "@ + decimal_spec(index as nat + 1),
        InvalidEncryptionKeyError::InvalidLength => "invalid length"@,
    }
}

/// Describes a malformed key.
pub fn show_invalid_encryption_key_error(e: &InvalidEncryptionKeyError) -> (r: String)
    ensures
        r@ == invalid_key_text(*e),
{
    match e {
        InvalidEncryptionKeyError::InvalidCharacter { c, index } => {
            let mut s = String::from_str("invalid character '");
            let ch = char_text(*c);
            s.append(ch.as_str());
            s.append("' at position ");
            let n = decimal(*index as u128 + 1);
            s.append(n.as_str());
            s
        },
        InvalidEncryptionKeyError::InvalidLength => String::from_str("invalid length"),
    }
}

/// Describes why the mask was not built, as for a malformed key.
pub fn show_init_error(e: &InitError) -> (r: String)
    ensures
        r@ == invalid_key_text(
            match *e {
                InitError::InvalidCharacter { c, index } => InvalidEncryptionKeyError::InvalidCharacter {
                    c,
                    index,
                },
                InitError::InvalidLength => InvalidEncryptionKeyError::InvalidLength,
            },
        ),
{
    let k = match e {
        InitError::InvalidCharacter { c, index } => InvalidEncryptionKeyError::InvalidCharacter {
            c: *c,
            index: *index,
        },
        InitError::InvalidLength => InvalidEncryptionKeyError::InvalidLength,
    };
    show_invalid_encryption_key_error(&k)
}

/// What is said of a buffer that the cipher refused.
pub open spec fn decrypt_error_text(e: DecryptError) -> Seq<char> {
    match e {
        DecryptError::TooShort { len } => "the file holds "@ + decimal_spec(len as nat)
            + " bytes, fewer than its "@ + decimal_spec(HEADER_LEN as nat) + "-byte header"@,
    }
}

/// Describes why a buffer was not decrypted.
pub fn show_decrypt_error(e: &DecryptError) -> (r: String)
    ensures
        r@ == decrypt_error_text(*e),
{
    match e {
        DecryptError::TooShort { len } => {
            let mut s = String::from_str("the file holds ");
            let n = decimal(*len as u128);
            s.append(n.as_str());
            s.append(" bytes, fewer than its ");
            let h = decimal(HEADER_LEN as u128);
            s.append(h.as_str());
            s.append("-byte header");
            s
        },
    }
}

/// What is said of a manifest that could not be parsed.
pub open spec fn parse_error_text(e: ParseSystemJsonError) -> Seq<char> {
    match e {
        ParseSystemJsonError::NotAnObject => "content is not an object"@,
        ParseSystemJsonError::EncryptionKeyNotExists => "encryptionKey not exists"@,
        ParseSystemJsonError::EncryptionKeyIsNotAString => "encryptionKey is not a string"@,
        ParseSystemJsonError::InvalidEncryptionKey { encryption_key, source } =>
            "encryptionKey is invalid("@ + encryption_key@ + "): "@ + invalid_key_text(source),
    }
}

/// Describes why a manifest could not be parsed.
pub fn show_parse_system_json_error(e: &ParseSystemJsonError) -> (r: String)
    ensures
        r@ == parse_error_text(*e),
{
    match e {
        ParseSystemJsonError::NotAnObject => String::from_str("content is not an object"),
        ParseSystemJsonError::EncryptionKeyNotExists => String::from_str("encryptionKey not exists"),
        ParseSystemJsonError::EncryptionKeyIsNotAString => String::from_str(
            "encryptionKey is not a string",
        ),
        ParseSystemJsonError::InvalidEncryptionKey { encryption_key, source } => {
            let mut s = String::from_str("encryptionKey is invalid(");
            s.append(encryption_key.as_str());
            s.append("): ");
            let t = show_invalid_encryption_key_error(source);
            s.append(t.as_str());
            s
        },
    }
}

/// What is said of an entry that could not be scanned.
pub open spec fn scan_line(f: ScanFailure) -> Seq<char> {
    match f.path {
        Some(p) => "failed to scan "@ + p@ + ": "@ + f.cause@,
        None => "failed to scan: "@ + f.cause@,
    }
}

/// How the failed step of a file's transform is named.
pub open spec fn op_text(op: FileOp) -> Seq<char> {
    match op {
        FileOp::Read => "failed to read encrypted file("@,
        FileOp::Decrypt => "failed to decrypt file("@,
        FileOp::CreateDir => "failed to create the directory of file("@,
        FileOp::Write => "failed to write decrypted file("@,
        FileOp::Copy => "failed to copy file("@,
        FileOp::Remove => "failed to remove encrypted file("@,
    }
}

/// What is said of a file whose transform failed.
pub open spec fn file_line(f: FileFailure) -> Seq<char> {
    op_text(f.op) + f.path@ + "): "@ + f.cause@
}

/// Lines joined by line breaks.
pub open spec fn join_lines(lines: Seq<Seq<char>>) -> Seq<char>
    decreases lines.len(),
{
    if lines.len() == 0 {
        Seq::empty()
    } else if lines.len() == 1 {
        lines[0]
    } else {
        join_lines(lines.drop_last()) + "\n"@ + lines.last()
    }
}

/// The lines that describe the failures of an incomplete run: the scan's
/// first, then the files'.
pub open spec fn failure_lines(scan: Seq<ScanFailure>, files: Seq<FileFailure>) -> Seq<Seq<char>> {
    scan.map_values(|f: ScanFailure| scan_line(f)) + files.map_values(|f: FileFailure| file_line(f))
}

/// What is said of a failed run.
pub open spec fn decryption_error_text(e: DecryptionError) -> Seq<char> {
    match e {
        DecryptionError::NotExists(p) => "specified path does not exist: "@ + p@,
        DecryptionError::NotADirectory(p) => "specified path is not a directory: "@ + p@,
        DecryptionError::SystemJsonNotFound => "System.json was not found"@,
        DecryptionError::ReadSystemJson { path, cause } => "failed to read System.json("@ + path@
            + "): "@ + cause@,
        DecryptionError::ParseSystemJson { path, source } => "failed to parse System.json("@
            + path@ + "): "@ + parse_error_text(source),
        DecryptionError::Incomplete { scan, files } => join_lines(failure_lines(scan@, files@)),
        DecryptionError::MarkSystemJsonAsUnencrypted { path, cause } =>
            "failed to mark System.json as unencrypted("@ + path@ + "): "@ + cause@,
    }
}

fn show_scan_failure(f: &ScanFailure) -> (r: String)
    ensures
        r@ == scan_line(*f),
{
    match &f.path {
        Some(p) => {
            let mut s = String::from_str("failed to scan ");
            s.append(p.as_str());
            s.append(": ");
            s.append(f.cause.as_str());
            s
        },
        None => {
            let mut s = String::from_str("failed to scan: ");
            s.append(f.cause.as_str());
            s
        },
    }
}

fn show_file_failure(f: &FileFailure) -> (r: String)
    ensures
        r@ == file_line(*f),
{
    let mut s = match f.op {
        FileOp::Read => String::from_str("failed to read encrypted file("),
        FileOp::Decrypt => String::from_str("failed to decrypt file("),
        FileOp::CreateDir => String::from_str("failed to create the directory of file("),
        FileOp::Write => String::from_str("failed to write decrypted file("),
        FileOp::Copy => String::from_str("failed to copy file("),
        FileOp::Remove => String::from_str("failed to remove encrypted file("),
    };
    s.append(f.path.as_str());
    s.append("): ");
    s.append(f.cause.as_str());
    s
}

/// Adds a line to the lines joined so far.
fn push_line(
    s: &mut String,
    first: bool,
    line: &str,
    Ghost(lines): Ghost<Seq<Seq<char>>>,
    Ghost(count): Ghost<int>,
)
    requires
        0 <= count < lines.len(),
        first == (count == 0),
        old(s)@ == join_lines(lines.subrange(0, count)),
        line@ == lines[count],
    ensures
        final(s)@ == join_lines(lines.subrange(0, count + 1)),
{
    let ghost next = lines.subrange(0, count + 1);
    assert(next.drop_last() == lines.subrange(0, count));
    if !first {
        s.append("\n");
    }
    s.append(line);
}

fn show_failures(scan: &Vec<ScanFailure>, files: &Vec<FileFailure>) -> (r: String)
    ensures
        r@ == join_lines(failure_lines(scan@, files@)),
{
    let ghost lines = failure_lines(scan@, files@);
    let mut s = String::new();
    let mut i: usize = 0;
    while i < scan.len()
        invariant
            lines == failure_lines(scan@, files@),
            i <= scan@.len(),
            s@ == join_lines(lines.subrange(0, i as int)),
        decreases scan@.len() - i,
    {
        let line = show_scan_failure(&scan[i]);
        push_line(&mut s, i == 0, line.as_str(), Ghost(lines), Ghost(i as int));
        i = i + 1;
    }
    let mut j: usize = 0;
    while j < files.len()
        invariant
            lines == failure_lines(scan@, files@),
            j <= files@.len(),
            s@ == join_lines(lines.subrange(0, scan@.len() + j)),
        decreases files@.len() - j,
    {
        let line = show_file_failure(&files[j]);
        push_line(
            &mut s,
            scan.len() == 0 && j == 0,
            line.as_str(),
            Ghost(lines),
            Ghost(scan@.len() + j),
        );
        j = j + 1;
    }
    assert(lines.subrange(0, lines.len() as int) == lines);
    s
}

/// Describes why a run failed.
pub fn show_decryption_error(e: &DecryptionError) -> (r: String)
    ensures
        r@ == decryption_error_text(*e),
{
    match e {
        DecryptionError::NotExists(p) => {
            let mut s = String::from_str("specified path does not exist: ");
            s.append(p.as_str());
            s
        },
        DecryptionError::NotADirectory(p) => {
            let mut s = String::from_str("specified path is not a directory: ");
            s.append(p.as_str());
            s
        },
        DecryptionError::SystemJsonNotFound => String::from_str("System.json was not found"),
        DecryptionError::ReadSystemJson { path, cause } => {
            let mut s = String::from_str("failed to read System.json(");
            s.append(path.as_str());
            s.append("): ");
            s.append(cause.as_str());
            s
        },
        DecryptionError::ParseSystemJson { path, source } => {
            let mut s = String::from_str("failed to parse System.json(");
            s.append(path.as_str());
            s.append("): ");
            let t = show_parse_system_json_error(source);
            s.append(t.as_str());
            s
        },
        DecryptionError::Incomplete { scan, files } => show_failures(scan, files),
        DecryptionError::MarkSystemJsonAsUnencrypted { path, cause } => {
            let mut s = String::from_str("failed to mark System.json as unencrypted(");
            s.append(path.as_str());
            s.append("): ");
            s.append(cause.as_str());
            s
        },
    }
}

} // verus!
