//! Names that the pipeline builds from user input: the text handed to the
//! tokenizer, the paths of a model dump's parts, and the files that sampled
//! images are written to.

use vstd::prelude::*;

verus! {

/// The decimal digit character for `d` (`0 <= d < 10`).
pub open spec fn digit_char(d: nat) -> char {
    if d == 0 { '0' }
    else if d == 1 { '1' }
    else if d == 2 { '2' }
    else if d == 3 { '3' }
    else if d == 4 { '4' }
    else if d == 5 { '5' }
    else if d == 6 { '6' }
    else if d == 7 { '7' }
    else if d == 8 { '8' }
    else { '9' }
}

/// The decimal representation of `n`, without sign or leading zeros, as
/// `usize`'s `Display` writes it.
pub open spec fn decimal(n: nat) -> Seq<char>
    decreases n,
{
    if n < 10 {
        seq![digit_char(n)]
    } else {
        decimal(n / 10).push(digit_char(n % 10))
    }
}

/// The text of the token sequence that conditions the model on a prompt.
pub open spec fn spec_context_text(prompt: Seq<char>) -> Seq<char> {
    "<|startoftext|>"@ + prompt + "<|endoftext|>"@
}

/// The path of the part `name` of a model dump stored under `path`.
pub open spec fn spec_component_path(path: Seq<char>, name: Seq<char>) -> Seq<char> {
    path + "/"@ + name
}

/// The file that the image with number `index` is written to.
pub open spec fn spec_image_file_name(base: Seq<char>, index: nat) -> Seq<char> {
    base + decimal(index) + ".png"@
}

/// The one-character string of the digit `d`.
fn digit_str(d: usize) -> (s: &'static str)
    requires
        d < 10,
    ensures
        s@ == seq![digit_char(d as nat)],
{
    proof {
        reveal_strlit("0");
        reveal_strlit("1");
        reveal_strlit("2");
        reveal_strlit("3");
        reveal_strlit("4");
        reveal_strlit("5");
        reveal_strlit("6");
        reveal_strlit("7");
        reveal_strlit("8");
        reveal_strlit("9");
    }
    if d == 0 { "0" }
    else if d == 1 { "1" }
    else if d == 2 { "2" }
    else if d == 3 { "3" }
    else if d == 4 { "4" }
    else if d == 5 { "5" }
    else if d == 6 { "6" }
    else if d == 7 { "7" }
    else if d == 8 { "8" }
    else { "9" }
}

/// Appends the decimal representation of `n` to `out`.
fn push_decimal(out: &mut String, n: usize)
    ensures
        final(out)@ == old(out)@ + decimal(n as nat),
    decreases n,
{
    if n >= 10 {
        push_decimal(out, n / 10);
    }
    out.append(digit_str(n % 10));
    proof {
        if n < 10 {
            assert(n % 10 == n);
            assert(old(out)@ + decimal(n as nat) =~= old(out)@ + seq![digit_char(n as nat)]);
        } else {
            assert(old(out)@ + decimal(n as nat) =~= old(out)@ + decimal((n / 10) as nat) + seq![
                digit_char((n % 10) as nat),
            ]);
        }
    }
}

/// The text that is tokenized to condition the model on `prompt`: the prompt
/// between the start-of-text and end-of-text markers.
pub fn context_text(prompt: &str) -> (text: String)
    ensures
        text@ == spec_context_text(prompt@),
        // the start marker, the whole prompt, the end marker
        text@.len() == prompt@.len() + 28,
        text@.subrange(0, 15) == "<|startoftext|>"@,
        text@.subrange(15, 15 + prompt@.len() as int) == prompt@,
        text@.subrange(15 + prompt@.len() as int, text@.len() as int) == "<|endoftext|>"@,
{
    proof {
        lemma_context_text_holds_prompt(prompt@);
    }
    String::from_str("<|startoftext|>").concat(prompt).concat("<|endoftext|>")
}

/// The path of the part `name` (such as `autoencoder`) of a dump stored under
/// `path`.
pub fn component_path(path: &str, name: &str) -> (p: String)
    ensures
        p@ == spec_component_path(path@, name@),
        p@ == path@ + "/"@ + name@,
        // the dump path, one `/`, the part's name
        p@.len() == path@.len() + 1 + name@.len(),
        p@.subrange(0, path@.len() as int) == path@,
        p@[path@.len() as int] == '/',
        p@.skip(path@.len() as int + 1) == name@,
{
    proof {
        lemma_component_path_layout(path@, name@);
    }
    String::from_str(path).concat("/").concat(name)
}

/// The file that the image with number `index` of a batch is written to:
/// the base path, the number in decimal, and `.png`.
pub fn image_file_name(base: &str, index: usize) -> (name: String)
    ensures
        name@ == spec_image_file_name(base@, index as nat),
        name@ == base@ + decimal(index as nat) + ".png"@,
{
    let mut name = String::from_str(base);
    push_decimal(&mut name, index);
    let name = name.concat(".png");
    proof {
        assert(base@ + decimal(index as nat) + ".png"@ == (base@ + decimal(index as nat)) + ".png"@);
    }
    name
}

/// The conditioning text holds the whole prompt, unchanged, between the
/// 15-character start marker and the 13-character end marker.
pub proof fn lemma_context_text_holds_prompt(prompt: Seq<char>)
    ensures
        spec_context_text(prompt).len() == prompt.len() + 28,
        spec_context_text(prompt).subrange(0, 15) == "<|startoftext|>"@,
        spec_context_text(prompt).subrange(15, 15 + prompt.len() as int) == prompt,
        spec_context_text(prompt).subrange(15 + prompt.len() as int, prompt.len() as int + 28) == "<|endoftext|>"@,
{
    reveal_strlit("<|startoftext|>");
    reveal_strlit("<|endoftext|>");
    let t = spec_context_text(prompt);
    assert("<|startoftext|>"@.len() == 15);
    assert("<|endoftext|>"@.len() == 13);
    assert(t.subrange(0, 15) =~= "<|startoftext|>"@);
    assert(t.subrange(15, 15 + prompt.len() as int) =~= prompt);
    assert(t.subrange(15 + prompt.len() as int, prompt.len() as int + 28) =~= "<|endoftext|>"@);
}

/// The path of a part is the dump path, then exactly one `/`, then the
/// part's name: nothing of either is dropped or merged.
pub proof fn lemma_component_path_layout(path: Seq<char>, name: Seq<char>)
    ensures
        spec_component_path(path, name) == path + "/"@ + name,
        spec_component_path(path, name).len() == path.len() + 1 + name.len(),
        spec_component_path(path, name).subrange(0, path.len() as int) == path,
        spec_component_path(path, name)[path.len() as int] == '/',
        spec_component_path(path, name).skip(path.len() as int + 1) == name,
{
    reveal_strlit("/");
    let p = spec_component_path(path, name);
    assert(p.subrange(0, path.len() as int) =~= path);
    assert(p.skip(path.len() as int + 1) =~= name);
}

/// A decimal representation never starts with `0` unless it is `0` itself,
/// and its last digit is the number modulo ten.
proof fn lemma_decimal_last(n: nat)
    ensures
        decimal(n).len() >= 1,
        decimal(n).last() == digit_char(n % 10),
        n < 10 <==> decimal(n).len() == 1,
    decreases n,
{
    if n >= 10 {
        lemma_decimal_last(n / 10);
    }
}

/// Distinct numbers have distinct decimal representations.
pub proof fn lemma_decimal_injective(a: nat, b: nat)
    requires
        decimal(a) == decimal(b),
    ensures
        a == b,
    decreases a,
{
    lemma_decimal_last(a);
    lemma_decimal_last(b);
    assert(digit_char(a % 10) == digit_char(b % 10));
    assert(a % 10 == b % 10);
    if a >= 10 && b >= 10 {
        assert(decimal(a / 10) =~= decimal(a).drop_last());
        assert(decimal(b / 10) =~= decimal(b).drop_last());
        lemma_decimal_injective(a / 10, b / 10);
    }
}

/// Images with different numbers are written to different files, so saving a
/// batch never overwrites one of its images with another.
pub proof fn lemma_image_file_names_distinct(base: Seq<char>, i: nat, j: nat)
    requires
        i != j,
    ensures
        spec_image_file_name(base, i) != spec_image_file_name(base, j),
{
    if spec_image_file_name(base, i) == spec_image_file_name(base, j) {
        let a = spec_image_file_name(base, i);
        let b = spec_image_file_name(base, j);
        lemma_decimal_last(i);
        lemma_decimal_last(j);
        assert(a.len() == b.len());
        assert(decimal(i).len() == decimal(j).len());
        assert(decimal(i) =~= a.subrange(base.len() as int, (base.len() + decimal(i).len()) as int));
        assert(decimal(j) =~= b.subrange(base.len() as int, (base.len() + decimal(j).len()) as int));
        lemma_decimal_injective(i, j);
    }
}

} // verus!
