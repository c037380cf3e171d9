//! NoCloud `cidata` ISO images for cloud-init: the size of the buffer an
//! image is formatted in, and the cut after its last used sector.
use vstd::prelude::*;
use crate::error::Error;
use crate::text::owned;
use hadris_iso::joliet::JolietLevel;
use hadris_iso::read::PathSeparator;
use hadris_iso::write::options::{BaseIsoLevel, CreationFeatures, IsoFormatOptions};
use hadris_iso::write::{File as IsoFile, InputFiles, IsoImageWriter};
use std::io::Cursor;
use std::sync::Arc;

verus! {

/// The position of the last non-zero byte, or 0 when every byte is zero.
pub open spec fn last_nonzero(data: Seq<u8>) -> int
    decreases data.len(),
{
    if data.len() == 0 {
        0
    } else if data.last() != 0 {
        data.len() - 1
    } else {
        last_nonzero(data.drop_last())
    }
}

proof fn lemma_last_nonzero_bound(data: Seq<u8>)
    ensures
        0 <= last_nonzero(data),
        data.len() > 0 ==> last_nonzero(data) < data.len(),
        data.len() == 0 ==> last_nonzero(data) == 0,
    decreases data.len(),
{
    if data.len() > 0 {
        lemma_last_nonzero_bound(data.drop_last());
    }
}

/// The length that keeps every sector up to the one holding the last
/// non-zero byte: that sector's end, in 2048-byte sectors.
pub open spec fn trimmed_len(data: Seq<u8>) -> int {
    (last_nonzero(data) / 2048 + 1) * 2048
}

/// The length of `data` cut after the sector of its last non-zero byte.
pub fn trim_trailing_zeros(data: &[u8]) -> (r: usize)
    requires
        data@.len() + 2048 <= usize::MAX,
    ensures
        r == trimmed_len(data@),
{
    proof {
        lemma_last_nonzero_bound(data@);
    }
    let mut i: usize = data.len();
    proof {
        assert(data@.take(data@.len() as int) =~= data@);
    }
    while i > 0 && data[i - 1] == 0
        invariant
            i <= data.len(),
            last_nonzero(data@) == last_nonzero(data@.take(i as int)),
        decreases i,
    {
        proof {
            assert(data@.take(i as int).drop_last() =~= data@.take(i - 1));
        }
        i = i - 1;
    }
    let last: usize = if i == 0 {
        proof {
            assert(data@.take(0) =~= Seq::<u8>::empty());
        }
        0
    } else {
        proof {
            assert(data@.take(i as int).last() == data@[i - 1]);
        }
        i - 1
    };
    proof {
        assert(last_nonzero(data@) == last);
        assert((last / 2048 + 1) * 2048 <= last + 2048) by (nonlinear_arith);
    }
    (last / 2048 + 1) * 2048
}

/// The buffer size an image starts from: 512 KiB, or the payload plus
/// 128 KiB when that is more.
pub open spec fn image_buffer_size(user_len: nat, meta_len: nat) -> nat {
    if 512 * 1024 >= user_len + meta_len + 128 * 1024 {
        512 * 1024
    } else {
        user_len + meta_len + 128 * 1024
    }
}

/// The cut of a formatted image: the bytes up to the end of the sector of
/// its last non-zero byte.
pub fn cut_image(image: Vec<u8>) -> (r: Result<Vec<u8>, Error>)
    requires
        image@.len() + 2048 <= usize::MAX,
    ensures
        trimmed_len(image@) <= image@.len() ==> (r matches Ok(v) && v@ == image@.take(trimmed_len(image@))),
        trimmed_len(image@) > image@.len() ==> (r matches Err(Error::Backend(m))
            && m@ == "ISO image ends inside its last sector"@),
{
    let n = trim_trailing_zeros(image.as_slice());
    if n > image.len() {
        return Err(Error::Backend(crate::text::owned("ISO image ends inside its last sector")));
    }
    let mut v = image;
    v.truncate(n);
    Ok(v)
}

/// The buffer size an image of the given payload starts from.
pub fn iso_buffer_size(user_len: usize, meta_len: usize) -> (r: usize)
    requires
        user_len + meta_len + 128 * 1024 <= usize::MAX,
    ensures
        r == image_buffer_size(user_len as nat, meta_len as nat),
{
    let payload = user_len + meta_len + 128 * 1024;
    if 512 * 1024 >= payload {
        512 * 1024
    } else {
        payload
    }
}

proof fn lemma_nonzero_at_most_last(data: Seq<u8>, i: int)
    requires
        0 <= i < data.len(),
        data[i] != 0,
    ensures
        i <= last_nonzero(data),
    decreases data.len(),
{
    if data.last() == 0 {
        assert(i < data.len() - 1);
        assert(data.drop_last()[i] == data[i]);
        lemma_nonzero_at_most_last(data.drop_last(), i);
    }
}

/// Cutting an image loses nothing: the cut length is a whole number of
/// 2048-byte sectors, at least one, and every non-zero byte lies before it.
pub proof fn law_cut_keeps_every_used_byte(data: Seq<u8>, i: int)
    requires
        0 <= i < data.len(),
        data[i] != 0,
    ensures
        trimmed_len(data) % 2048 == 0,
        trimmed_len(data) >= 2048,
        i < trimmed_len(data),
{
    lemma_nonzero_at_most_last(data, i);
    lemma_last_nonzero_bound(data);
    let q = last_nonzero(data) / 2048;
    assert(last_nonzero(data) < (q + 1) * 2048) by (nonlinear_arith)
        requires
            q == last_nonzero(data) / 2048,
            last_nonzero(data) >= 0,
    ;
    assert(((q + 1) * 2048) % 2048 == 0) by (nonlinear_arith)
        requires
            q >= 0,
    ;
}


/// Formats an ISO 9660 image with Joliet level 3 names and 2048-byte
/// sectors, holding the given files at its root, with
/// `hadris_iso::write::IsoImageWriter::create` writing into a zeroed
/// buffer of `size` bytes; the error's text on failure.
///
/// Trusted: the buffer only grows as the writer writes into it, so an image
/// is never shorter than `size`. Nothing more is claimed of its bytes: the
/// writer stamps them with the current time.
#[verifier::external_body]
fn format_iso_image(volume: &str, files: Vec<(String, Vec<u8>)>, size: usize) -> (r: Result<Vec<u8>, String>)
    ensures
        r matches Ok(v) ==> v@.len() >= size,
{
    let files = files.into_iter().map(|(n, c)| IsoFile::File { name: Arc::new(n), contents: c }).collect();
    let filenames = BaseIsoLevel::Level1 { supports_lowercase: true, supports_rrip: false };
    let features = CreationFeatures { filenames, long_filenames: true, ..CreationFeatures::joliet(JolietLevel::Level3) };
    let sep = PathSeparator::ForwardSlash;
    let ops = IsoFormatOptions { volume_name: volume.to_string(), system_id: None, volume_set_id: None,
        publisher_id: None, preparer_id: None, application_id: None, sector_size: 2048,
        path_separator: sep, features, strict_charset: false };
    let image = IsoImageWriter::create(Cursor::new(vec![0u8; size]), InputFiles { path_separator: sep, files }, ops);
    image.map(|c| c.into_inner()).map_err(|e| e.to_string())
}

fn bytes_of(data: &[u8]) -> (r: Vec<u8>)
    ensures
        r@ == data@,
{
    let mut v: Vec<u8> = Vec::new();
    let mut i: usize = 0;
    while i < data.len()
        invariant
            i <= data.len(),
            v@ == data@.take(i as int),
        decreases data.len() - i,
    {
        v.push(data[i]);
        proof {
            assert(data@.take(i + 1) =~= data@.take(i as int).push(data@[i as int]));
        }
        i = i + 1;
    }
    proof {
        assert(data@.take(data@.len() as int) =~= data@);
    }
    v
}

/// A NoCloud seed image: volume `cidata` holding exactly `user-data` and
/// `meta-data`, formatted in a buffer of [`image_buffer_size`] bytes and cut
/// after its last used sector. Whatever the formatter gave, a result is a
/// whole number of sectors (at least one) cut from an image at least as
/// long as that buffer; a formatter failure is reported with its text.
pub fn nocloud_image(user_data: &[u8], meta_data: &[u8]) -> (r: Result<Vec<u8>, Error>)
    requires
        user_data@.len() + meta_data@.len() + 128 * 1024 <= usize::MAX,
    ensures
        r matches Ok(v) ==> (exists|img: Seq<u8>|
            #![trigger trimmed_len(img)]
            img.len() >= image_buffer_size(user_data@.len(), meta_data@.len())
                && trimmed_len(img) <= img.len() && v@ == img.take(trimmed_len(img))),
        r matches Ok(v) ==> v@.len() % 2048 == 0 && v@.len() >= 2048,
        r is Err ==> r matches Err(Error::Backend(_)),
{
    let size = iso_buffer_size(user_data.len(), meta_data.len());
    let mut files: Vec<(String, Vec<u8>)> = Vec::new();
    files.push((owned("user-data"), bytes_of(user_data)));
    files.push((owned("meta-data"), bytes_of(meta_data)));
    let image = match format_iso_image("cidata", files, size) {
        Ok(img) => img,
        Err(e) => return Err(Error::Backend(e)),
    };
    if image.len() > usize::MAX - 2048 {
        return Err(Error::Backend(owned("ISO image too large")));
    }
    let ghost img = image@;
    let r = cut_image(image);
    proof {
        if r is Ok {
            lemma_last_nonzero_bound(img);
            assert((last_nonzero(img) / 2048 + 1) * 2048 % 2048 == 0) by (nonlinear_arith);
            assert((last_nonzero(img) / 2048 + 1) * 2048 >= 2048) by (nonlinear_arith)
                requires last_nonzero(img) >= 0;
        }
    }
    r
}

} // verus!
