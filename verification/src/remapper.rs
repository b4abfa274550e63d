//! Compiling the remapping rules of a checkpoint into a `burn_store::KeyRemapper`,
//! the object that a tensor store applies to every tensor name it loads.

use vstd::prelude::*;

use burn_core::module::ParamId;
use burn_core::tensor::TensorData;
use burn_store::{KeyRemapper, TensorSnapshot};

use crate::remap_rules::{key_remap_rules_sd, owned_pairs_view, spec_sd_rules};

verus! {

#[verifier::external_type_specification]
#[verifier::external_body]
pub struct ExKeyRemapper(KeyRemapper);

#[verifier::external_type_specification]
#[verifier::external_body]
pub struct ExRegexError(regex::Error);

/// Whether `regex::Regex::new` accepts `pattern`, with the crate's default
/// syntax and size limits.
pub uninterp spec fn regex_accepts(pattern: Seq<char>) -> bool;

/// The `(pattern, replacement)` rules that a remapper holds, in the order in
/// which it applies them; each pattern is the source text of its compiled regex.
pub uninterp spec fn remapper_rules(remapper: KeyRemapper) -> Seq<(Seq<char>, Seq<char>)>;

/// The name that a remapper holding `rules`, each pattern compiled with the
/// regex crate's default options, gives to the tensor `name`: each rule in
/// turn replaces every match of its pattern in the name so far.
pub uninterp spec fn remapped_name(rules: Seq<(Seq<char>, Seq<char>)>, name: Seq<char>) -> Seq<char>;

/// Whether every pattern of `rules` is accepted by the regex compiler.
pub open spec fn all_patterns_compile(rules: Seq<(Seq<char>, Seq<char>)>) -> bool {
    forall|i: int| 0 <= i < rules.len() ==> #[trigger] regex_accepts(rules[i].0)
}

/// Calls `KeyRemapper::from_patterns`. Its source compiles the patterns one
/// after another with `Regex::new`, returns the first compile error, and
/// otherwise keeps every compiled pattern with its replacement, in order.
/// The contract claims exactly that: `Ok` iff every pattern compiles, and then
/// the remapper holds the given rules in the given order. Which error comes
/// back when several patterns fail is left unsaid.
#[verifier::external_body]
fn key_remapper_from_patterns(rules: Vec<(String, String)>) -> (res: Result<KeyRemapper, regex::Error>)
    ensures
        res is Ok <==> (forall|i: int| 0 <= i < rules@.len() ==> #[trigger] regex_accepts(rules@[i].0@)),
        res matches Ok(remapper) ==> remapper_rules(remapper) == owned_pairs_view(rules@),
{
    KeyRemapper::from_patterns(rules)
}

/// A `KeyRemapper` compiled by `compile_key_remapper`, through
/// `KeyRemapper::from_patterns`: every pattern is a regex built with the regex
/// crate's default options from the rule's text. The field is private, so no
/// other remapper (one built from regexes with other options) can stand here.
pub struct CompiledRemapper {
    remapper: KeyRemapper,
}

impl CompiledRemapper {
    /// The rules the remapper holds, in the order in which it applies them.
    pub closed spec fn rules(self) -> Seq<(Seq<char>, Seq<char>)> {
        remapper_rules(self.remapper)
    }

    /// The `burn_store` remapper inside.
    pub closed spec fn spec_key_remapper(self) -> KeyRemapper {
        self.remapper
    }

    /// The `burn_store` remapper inside, for a tensor store to apply.
    pub fn key_remapper(&self) -> (r: &KeyRemapper)
        ensures
            *r == self.spec_key_remapper(),
            remapper_rules(*r) == self.rules(),
    {
        &self.remapper
    }

    /// The `burn_store` remapper inside, handed over to a tensor store.
    pub fn into_key_remapper(self) -> (r: KeyRemapper)
        ensures
            r == self.spec_key_remapper(),
            remapper_rules(r) == self.rules(),
    {
        self.remapper
    }
}

/// Calls `KeyRemapper::remap` on one tensor snapshot per name, each with an
/// empty tensor and the name as its path (the name split at its dots, which
/// the snapshot joins back), and returns the `(new name, old name)` pairs it
/// reports. Its source keeps the snapshots in order, reads each old name back
/// unchanged, leaves every name as it is when the remapper holds no rule, and
/// otherwise applies the rules in order, each replacing every match of its
/// regex; since every regex of a `CompiledRemapper` is compiled with the
/// default options from its rule's text, the new name is named by
/// `remapped_name` over the rules' texts.
#[verifier::external_body]
fn key_remapper_remap(remapper: &CompiledRemapper, names: Vec<String>) -> (renamed: Vec<(String, String)>)
    ensures
        renamed.len() == names.len(),
        forall|i: int|
            0 <= i < names.len() ==> {
                &&& (#[trigger] renamed[i]).1@ == names[i]@
                &&& renamed[i].0@ == remapped_name(remapper.rules(), names[i]@)
                &&& remapper.rules().len() == 0 ==> renamed[i].0@ == names[i]@
            },
{
    let snapshots: Vec<TensorSnapshot> = names
        .iter()
        .map(|name| {
            let path = name.split('.').map(String::from).collect();
            TensorSnapshot::from_data(TensorData::new(Vec::<i32>::new(), [0]), path, Vec::new(), ParamId::new())
        })
        .collect();
    remapper.remapper.remap(snapshots).1
}

/// Why a set of remapping rules could not be turned into a remapper.
#[derive(Debug, Clone, Copy, PartialEq, Eq)]
pub enum RemapError {
    /// A pattern is not a regular expression that the regex compiler accepts.
    InvalidPattern,
}

/// Compiles `rules` into a remapper; fails exactly when some pattern does not
/// compile.
pub fn compile_key_remapper(rules: Vec<(String, String)>) -> (res: Result<CompiledRemapper, RemapError>)
    ensures
        res is Ok <==> all_patterns_compile(owned_pairs_view(rules@)),
        res matches Ok(remapper) ==> remapper.rules() == owned_pairs_view(rules@),
        res matches Err(e) ==> e == RemapError::InvalidPattern,
{
    let ghost v = rules@;
    assert(forall|i: int| 0 <= i < v.len() ==> #[trigger] owned_pairs_view(v)[i] == (v[i].0@, v[i].1@));
    assert(all_patterns_compile(owned_pairs_view(v)) <==> (forall|i: int|
        0 <= i < v.len() ==> #[trigger] regex_accepts(v[i].0@))) by {
        if all_patterns_compile(owned_pairs_view(v)) {
            assert forall|i: int| 0 <= i < v.len() implies #[trigger] regex_accepts(v[i].0@) by {
                assert(owned_pairs_view(v)[i].0 == v[i].0@);
            }
        }
        if forall|i: int| 0 <= i < v.len() ==> #[trigger] regex_accepts(v[i].0@) {
            assert forall|i: int| 0 <= i < owned_pairs_view(v).len() implies #[trigger] regex_accepts(
                owned_pairs_view(v)[i].0,
            ) by {
                assert(owned_pairs_view(v)[i].0 == v[i].0@);
            }
        }
    }
    match key_remapper_from_patterns(rules) {
        Ok(remapper) => Ok(CompiledRemapper { remapper }),
        Err(_) => Err(RemapError::InvalidPattern),
    }
}

/// The remapper for a full Stable Diffusion checkpoint: it holds the rules of
/// `key_remap_rules_sd`, in order, or fails when one of their patterns does
/// not compile.
pub fn sd_key_remapper() -> (res: Result<CompiledRemapper, RemapError>)
    ensures
        res is Ok <==> all_patterns_compile(spec_sd_rules()),
        res matches Ok(remapper) ==> remapper.rules() == spec_sd_rules(),
{
    compile_key_remapper(key_remap_rules_sd())
}

/// The names that `remapper` gives to the tensors `names`, each paired with
/// the name it replaces, in the order of `names`.
pub fn remap_tensor_names(remapper: &CompiledRemapper, names: Vec<String>) -> (renamed: Vec<(String, String)>)
    ensures
        renamed.len() == names.len(),
        forall|i: int|
            0 <= i < names.len() ==> {
                &&& (#[trigger] renamed[i]).1@ == names[i]@
                &&& renamed[i].0@ == remapped_name(remapper.rules(), names[i]@)
                &&& remapper.rules().len() == 0 ==> renamed[i].0@ == names[i]@
            },
{
    key_remapper_remap(remapper, names)
}

/// The names that a Stable Diffusion checkpoint's tensors `names` get when
/// they are loaded: each paired with its name in the checkpoint, or an error
/// when a rule's pattern does not compile.
pub fn sd_tensor_names(names: Vec<String>) -> (renamed: Result<Vec<(String, String)>, RemapError>)
    ensures
        renamed is Ok <==> all_patterns_compile(spec_sd_rules()),
        renamed matches Ok(pairs) ==> {
            &&& pairs.len() == names.len()
            &&& forall|i: int|
                0 <= i < names.len() ==> {
                    &&& (#[trigger] pairs[i]).1@ == names[i]@
                    &&& pairs[i].0@ == remapped_name(spec_sd_rules(), names[i]@)
                }
        },
{
    let remapper = sd_key_remapper()?;
    Ok(remap_tensor_names(&remapper, names))
}

} // verus!
