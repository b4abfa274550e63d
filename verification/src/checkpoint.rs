//! Which tensors of a safetensors checkpoint go to the autoencoder's encoder
//! layers, and under which names.

use vstd::prelude::*;

use crate::text::{remove_occurrences, remove_all, starts_with_text};

verus! {

/// The name that prefixes the tensors of the model in a checkpoint.
pub const MODEL_NAME: &'static str = "sd";

/// The name of a checkpoint tensor once every occurrence of the model prefix
/// `sd.` is taken out of it.
pub open spec fn spec_without_model_prefix(key: Seq<char>) -> Seq<char> {
    remove_all(key, "sd."@)
}

/// The name under which the tensor `key` is handed to the encoder loader: the
/// key without the model prefix, when that starts with `encoder.layer.`;
/// no name for any other tensor.
pub open spec fn spec_encoder_layer_key(key: Seq<char>) -> Option<Seq<char>> {
    let name = spec_without_model_prefix(key);
    if name.len() >= 14 && name.subrange(0, 14) == "encoder.layer."@ {
        Some(name)
    } else {
        None
    }
}

/// The name under which the checkpoint tensor `key` belongs to the encoder
/// layers, or `None` when it belongs elsewhere.
pub fn encoder_layer_key(key: &str) -> (name: Option<String>)
    ensures
        name matches Some(n) ==> spec_encoder_layer_key(key@) == Some(n@),
        name is None <==> spec_encoder_layer_key(key@) is None,
{
    proof {
        reveal_strlit("encoder.layer.");
        reveal_strlit("sd");
        reveal_strlit(".");
        reveal_strlit("sd.");
    }
    let prefix = String::from_str(MODEL_NAME).concat(".");
    assert(prefix@ == "sd."@);
    let stripped = remove_occurrences(key, prefix.as_str());
    if starts_with_text(stripped.as_str(), "encoder.layer.") {
        Some(stripped)
    } else {
        None
    }
}

/// Whether `pat` occurs anywhere in `s`.
pub open spec fn occurs_in(s: Seq<char>, pat: Seq<char>) -> bool {
    exists|i: int| 0 <= i && i + pat.len() <= s.len() && #[trigger] s.subrange(i, i + pat.len()) == pat
}

/// Removing a pattern that does not occur leaves the text as it is.
proof fn lemma_remove_absent(s: Seq<char>, pat: Seq<char>)
    requires
        pat.len() > 0,
        !occurs_in(s, pat),
    ensures
        remove_all(s, pat) == s,
    decreases s.len(),
{
    if s.len() > 0 {
        if pat.len() <= s.len() && s.subrange(0, pat.len() as int) == pat {
            let z: int = 0;
            assert(s.subrange(z, z + pat.len()) == pat);
            assert(occurs_in(s, pat));
        }
        let rest = s.skip(1);
        assert(!occurs_in(rest, pat)) by {
            if occurs_in(rest, pat) {
                let i = choose|i: int| 0 <= i && i + pat.len() <= rest.len() && #[trigger] rest.subrange(i, i + pat.len()) == pat;
                assert(s.subrange(i + 1, i + 1 + pat.len()) =~= rest.subrange(i, i + pat.len()));
            }
        }
        lemma_remove_absent(rest, pat);
        assert(seq![s[0]] + rest =~= s);
    }
}

/// A checkpoint name that already is an encoder-layer name, with no model
/// prefix anywhere in it, is handed to the encoder loader unchanged.
pub proof fn lemma_encoder_key_kept(key: Seq<char>)
    requires
        key.len() >= 14,
        key.subrange(0, 14) == "encoder.layer."@,
        !occurs_in(key, "sd."@),
    ensures
        spec_encoder_layer_key(key) == Some(key),
{
    reveal_strlit("sd.");
    lemma_remove_absent(key, "sd."@);
}

/// An encoder-layer name under the model prefix `sd.` is handed to the
/// encoder loader without that prefix.
pub proof fn lemma_encoder_key_strips_prefix(name: Seq<char>)
    requires
        name.len() >= 14,
        name.subrange(0, 14) == "encoder.layer."@,
        !occurs_in(name, "sd."@),
    ensures
        spec_encoder_layer_key("sd."@ + name) == Some(name),
{
    reveal_strlit("sd.");
    let key = "sd."@ + name;
    assert(key.subrange(0, 3) =~= "sd."@);
    assert(key.skip(3) =~= name);
    lemma_remove_absent(name, "sd."@);
    assert(remove_all(key, "sd."@) == remove_all(name, "sd."@));
}

/// Checkpoint names outside the encoder layers, such as the noise schedule
/// or the decoder, are not handed to the encoder loader.
pub proof fn lemma_encoder_key_refuses_others(name: Seq<char>)
    requires
        !occurs_in(name, "sd."@),
        name.len() < 14 || name.subrange(0, 14) != "encoder.layer."@,
    ensures
        spec_encoder_layer_key(name) is None,
        spec_encoder_layer_key("sd."@ + name) is None,
{
    reveal_strlit("sd.");
    lemma_remove_absent(name, "sd."@);
    let key = "sd."@ + name;
    assert(key.subrange(0, 3) =~= "sd."@);
    assert(key.skip(3) =~= name);
    assert(remove_all(key, "sd."@) == remove_all(name, "sd."@));
}

} // verus!
