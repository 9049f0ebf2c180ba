//! The hash by which two uploads of the same files are known to be the same.

use crate::outside;
use crate::outside::{name_uuid, uuid_string};
use crate::services::source_bundles;
use crate::services::source_bundles::{UploadedFileInput, UploadedFileInputView};
use vstd::bytes;
use vstd::bytes::*;
use vstd::prelude::*;
use vstd::string::*;
use vstd::utf8;

verus! {

/// Bytes behind their number.
pub open spec fn framed(b: Seq<u8>) -> Seq<u8> {
    bytes::spec_u64_to_le_bytes(b.len() as u64) + b
}

/// Files as bytes: for each file its path and its content, both framed.
pub open spec fn encoded(files: Seq<UploadedFileInputView>) -> Seq<u8>
    decreases files.len(),
{
    if files.len() == 0 {
        Seq::<u8>::empty()
    } else {
        encoded(files.drop_last()) + (framed(utf8::encode_utf8(files.last().relative_path))
            + framed(files.last().bytes))
    }
}

/// The namespace of these hashes.
pub open spec fn context_namespace() -> u128 {
    0x6ba7b812_9dad_11d1_80b4_00c04fd430c8
}

/// The hash of a build context.
pub open spec fn hash_of(files: Seq<UploadedFileInputView>) -> Seq<char> {
    outside::uuid_text(outside::name_digest(context_namespace(), encoded(files)))
}

fn append_framed(out: &mut Vec<u8>, b: &[u8])
    ensures
        final(out)@ == old(out)@ + framed(b@),
{
    let head: Vec<u8> = u64_to_le_bytes(b.len() as u64);
    let ghost before = out@;
    out.extend_from_slice(head.as_slice());
    assert(out@ =~= before + head@);
    out.extend_from_slice(b);
    assert(out@ =~= before + framed(b@));
}

/// The hash of a build context: files with the same paths and contents in the
/// same order have the same hash.
pub fn source_context_hash(files: &Vec<UploadedFileInput>) -> (r: String)
    ensures
        r@ == hash_of(source_bundles::input_views(files@)),
{
    let mut out: Vec<u8> = Vec::new();
    let ghost all = source_bundles::input_views(files@);
    assert(all.take(0) =~= Seq::<UploadedFileInputView>::empty());
    for i in 0..files.len()
        invariant
            all == source_bundles::input_views(files@),
            out@ == encoded(all.take(i as int)),
    {
        let ghost upto = all.take(i + 1);
        assert(upto.drop_last() =~= all.take(i as int));
        assert(upto.last() == files@[i as int]@);
        let ghost before = out@;
        append_framed(&mut out, files[i].relative_path.as_str().as_bytes());
        append_framed(&mut out, files[i].bytes.as_slice());
        assert(out@ =~= encoded(upto));
    }
    assert(all.take(all.len() as int) =~= all);
    uuid_string(name_uuid(0x6ba7b812_9dad_11d1_80b4_00c04fd430c8, &out))
}

/// The part of the encoding that one file takes.
pub open spec fn entry(file: UploadedFileInputView) -> Seq<u8> {
    framed(utf8::encode_utf8(file.relative_path)) + framed(file.bytes)
}

/// The encoding begins with the first file's part.
proof fn lemma_encoded_front(files: Seq<UploadedFileInputView>)
    requires
        files.len() > 0,
    ensures
        encoded(files) == entry(files[0]) + encoded(files.drop_first()),
    decreases files.len(),
{
    if files.len() == 1 {
        assert(files.drop_last() =~= Seq::<UploadedFileInputView>::empty());
        assert(files.drop_first() =~= Seq::<UploadedFileInputView>::empty());
        assert(encoded(files) =~= entry(files[0]) + encoded(files.drop_first()));
    } else {
        let front = files.drop_last();
        lemma_encoded_front(front);
        assert(front.drop_first() =~= files.drop_first().drop_last());
        assert(encoded(files) =~= entry(files[0]) + encoded(files.drop_first()));
    }
}

/// What stands behind framed bytes can be told from them.
proof fn lemma_framed(a: Seq<u8>, x: Seq<u8>, b: Seq<u8>, y: Seq<u8>)
    requires
        a.len() <= u64::MAX,
        b.len() <= u64::MAX,
        framed(a) + x == framed(b) + y,
    ensures
        a == b,
        x == y,
{
    bytes::lemma_auto_spec_u64_to_from_le_bytes();
    let p = bytes::spec_u64_to_le_bytes(a.len() as u64);
    let q = bytes::spec_u64_to_le_bytes(b.len() as u64);
    let whole = framed(a) + x;
    assert(p =~= whole.take(8));
    assert(q =~= whole.take(8));
    let n = 8 + a.len();
    assert(a =~= whole.subrange(8, n as int));
    assert(b =~= whole.subrange(8, n as int));
    assert(x =~= whole.skip(n as int));
    assert(y =~= whole.skip(n as int));
}

/// Whether a machine can count the bytes of every path and content.
pub open spec fn countable(files: Seq<UploadedFileInputView>) -> bool {
    forall|i: int|
        0 <= i < files.len() ==> (#[trigger] files[i]).bytes.len() <= u64::MAX
            && utf8::encode_utf8(files[i].relative_path).len() <= u64::MAX
}

/// What is hashed tells two uploads apart exactly where a path, a content or
/// the order of the files differs.
pub proof fn law_hashed_bytes_tell_uploads_apart(
    a: Seq<UploadedFileInputView>,
    b: Seq<UploadedFileInputView>,
)
    requires
        countable(a),
        countable(b),
    ensures
        encoded(a) == encoded(b) <==> a == b,
    decreases a.len(),
{
    if encoded(a) == encoded(b) {
        bytes::lemma_auto_spec_u64_to_from_le_bytes();
        if a.len() == 0 || b.len() == 0 {
            if a.len() > 0 {
                lemma_encoded_front(a);
                assert(encoded(a).len() > 0);
            }
            if b.len() > 0 {
                lemma_encoded_front(b);
                assert(encoded(b).len() > 0);
            }
            assert(a =~= b);
        } else {
            lemma_encoded_front(a);
            lemma_encoded_front(b);
            let ra = encoded(a.drop_first());
            let rb = encoded(b.drop_first());
            let pa = utf8::encode_utf8(a[0].relative_path);
            let pb = utf8::encode_utf8(b[0].relative_path);
            assert(encoded(a) =~= framed(pa) + (framed(a[0].bytes) + ra));
            assert(encoded(b) =~= framed(pb) + (framed(b[0].bytes) + rb));
            lemma_framed(pa, framed(a[0].bytes) + ra, pb, framed(b[0].bytes) + rb);
            lemma_framed(a[0].bytes, ra, b[0].bytes, rb);
            utf8::encode_utf8_decode_utf8(a[0].relative_path);
            utf8::encode_utf8_decode_utf8(b[0].relative_path);
            assert(a[0] == b[0]);
            assert(countable(a.drop_first())) by {
                assert forall|i: int| 0 <= i < a.drop_first().len() implies (
                #[trigger] a.drop_first()[i]).bytes.len() <= u64::MAX && utf8::encode_utf8(
                    a.drop_first()[i].relative_path,
                ).len() <= u64::MAX by {
                    assert(a.drop_first()[i] == a[i + 1]);
                }
            }
            assert(countable(b.drop_first())) by {
                assert forall|i: int| 0 <= i < b.drop_first().len() implies (
                #[trigger] b.drop_first()[i]).bytes.len() <= u64::MAX && utf8::encode_utf8(
                    b.drop_first()[i].relative_path,
                ).len() <= u64::MAX by {
                    assert(b.drop_first()[i] == b[i + 1]);
                }
            }
            law_hashed_bytes_tell_uploads_apart(a.drop_first(), b.drop_first());
            assert(a =~= seq![a[0]] + a.drop_first());
            assert(b =~= seq![b[0]] + b.drop_first());
        }
    }
}

/// Each file adds to what is hashed its path and its content, each behind its
/// length in eight bytes, after all files before it.
pub proof fn law_each_file_is_hashed(
    files: Seq<UploadedFileInputView>,
    file: UploadedFileInputView,
)
    ensures
        encoded(Seq::<UploadedFileInputView>::empty()).len() == 0,
        ({
            let path = utf8::encode_utf8(file.relative_path);
            encoded(files.push(file)) == encoded(files) + (bytes::spec_u64_to_le_bytes(
                path.len() as u64,
            ) + path + (bytes::spec_u64_to_le_bytes(file.bytes.len() as u64) + file.bytes))
        }),
{
    assert(files.push(file).drop_last() =~= files);
}

/// The hash is the name-based identifier of all that is hashed, in one namespace.
pub proof fn law_hash_is_of_everything(files: Seq<UploadedFileInputView>)
    ensures
        hash_of(files) == outside::uuid_text(
            outside::name_digest(0x6ba7b812_9dad_11d1_80b4_00c04fd430c8, encoded(files)),
        ),
{
}

} // verus!
