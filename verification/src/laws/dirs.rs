//! Where files lie, byte by byte.

use crate::dirs::{devhub_dir_below, path_bytes, path_join, FilePath};
use vstd::prelude::*;
use vstd::utf8::{
    decode_utf8, encode_utf8, encode_utf8_decode_utf8, encode_utf8_valid_utf8,
    is_ascii_chars_encode_utf8, valid_utf8,
};

verus! {

/// A path is its bytes, all of them.
pub proof fn law_path_is_its_bytes(path: FilePath)
    ensures
        path@ == path.bytes@,
{
}

/// A text written down as a path reads back as that text.
pub proof fn law_path_text_reads_back(text: Seq<char>)
    ensures
        valid_utf8(path_bytes(text)),
        decode_utf8(path_bytes(text)) == text,
{
    encode_utf8_valid_utf8(text);
    encode_utf8_decode_utf8(text);
}

/// What is looked for in a directory comes behind the directory's path, parted
/// from it by one slash, which the path may bring itself; nothing of either is
/// lost. An absolute path is looked for as it is.
pub proof fn law_leaf_comes_behind_the_directory(base: Seq<u8>, leaf: Seq<u8>)
    ensures
        path_join(base, seq![47u8] + leaf) == seq![47u8] + leaf,
        !(leaf.len() > 0 && leaf[0] == 47) ==> {
            &&& path_join(Seq::<u8>::empty(), leaf) == leaf
            &&& path_join(base.push(47), leaf) == base.push(47) + leaf
            &&& base.len() > 0 && base.last() != 47 ==> path_join(base, leaf) == base.push(47)
                + leaf
        },
{
    assert(Seq::<u8>::empty() + leaf =~= leaf);
}

/// The program's directory lies right below the home directory.
pub proof fn law_directory_lies_below_home(home: Seq<u8>)
    requires
        home.len() > 0,
    ensures
        home.last() != 47 ==> devhub_dir_below(home) == home + seq![
            47u8,
            46u8,
            100u8,
            101u8,
            118u8,
            104u8,
            117u8,
            98u8,
        ],
        home.last() == 47 ==> devhub_dir_below(home) == home + seq![
            46u8,
            100u8,
            101u8,
            118u8,
            104u8,
            117u8,
            98u8,
        ],
{
    reveal_strlit(".devhub");
    let name = ".devhub"@;
    is_ascii_chars_encode_utf8(name);
    let leaf = encode_utf8(name);
    assert(leaf =~= seq![46u8, 100u8, 101u8, 118u8, 104u8, 117u8, 98u8]) by {
        assert(name[0] as u8 == leaf[0]);
        assert(name[1] as u8 == leaf[1]);
        assert(name[2] as u8 == leaf[2]);
        assert(name[3] as u8 == leaf[3]);
        assert(name[4] as u8 == leaf[4]);
        assert(name[5] as u8 == leaf[5]);
        assert(name[6] as u8 == leaf[6]);
    }
    assert(home.push(47) + leaf =~= home + seq![
        47u8,
        46u8,
        100u8,
        101u8,
        118u8,
        104u8,
        117u8,
        98u8,
    ]);
}

} // verus!
