//! Command-line decisions of the conversion and sampling programs: which
//! arguments they accept, how a number of steps and a device are read, and
//! which model format is loaded.

use vstd::prelude::*;

use crate::names::{decimal, digit_char};
use crate::text::{chars_of, same_text, starts_with_text};

verus! {

// ---------------------------------------------------------------------------
// Reading an unsigned decimal number, as `str::parse::<usize>` does
// ---------------------------------------------------------------------------

pub open spec fn is_ascii_digit(c: char) -> bool {
    '0' <= c && c <= '9'
}

/// The value of the decimal digit `c`.
pub open spec fn digit_value(c: char) -> nat {
    if c == '0' { 0 }
    else if c == '1' { 1 }
    else if c == '2' { 2 }
    else if c == '3' { 3 }
    else if c == '4' { 4 }
    else if c == '5' { 5 }
    else if c == '6' { 6 }
    else if c == '7' { 7 }
    else if c == '8' { 8 }
    else { 9 }
}

/// The value of the decimal digit `c`, which is an ASCII digit.
fn digit_of(c: char) -> (d: usize)
    requires
        is_ascii_digit(c),
    ensures
        d == digit_value(c),
        d <= 9,
{
    if c == '0' { 0 }
    else if c == '1' { 1 }
    else if c == '2' { 2 }
    else if c == '3' { 3 }
    else if c == '4' { 4 }
    else if c == '5' { 5 }
    else if c == '6' { 6 }
    else if c == '7' { 7 }
    else if c == '8' { 8 }
    else { 9 }
}

/// The value of a string of decimal digits (0 for the empty string).
pub open spec fn digits_value(d: Seq<char>) -> nat
    decreases d.len(),
{
    if d.len() == 0 {
        0
    } else {
        digits_value(d.drop_last()) * 10 + digit_value(d.last())
    }
}

/// The digits of an unsigned number: the text without one leading `+`.
pub open spec fn unsigned_digits(s: Seq<char>) -> Seq<char> {
    if s.len() > 0 && s[0] == '+' {
        s.skip(1)
    } else {
        s
    }
}

/// What `str::parse::<usize>` gives for `s`: the number when `s` is one or
/// more ASCII digits, optionally after a `+`, whose value fits in a `usize`;
/// nothing otherwise.
pub open spec fn spec_parse_usize(s: Seq<char>) -> Option<usize> {
    let d = unsigned_digits(s);
    if d.len() > 0 && (forall|i: int| 0 <= i < d.len() ==> is_ascii_digit(#[trigger] d[i]))
        && digits_value(d) <= usize::MAX {
        Some(digits_value(d) as usize)
    } else {
        None
    }
}

/// A longer string of digits is worth at least as much as its prefix.
proof fn lemma_digits_value_prefix_le(d: Seq<char>, i: int, j: int)
    requires
        0 <= i <= j <= d.len(),
    ensures
        digits_value(d.subrange(0, i)) <= digits_value(d.subrange(0, j)),
    decreases j - i,
{
    if i < j {
        lemma_digits_value_prefix_le(d, i, j - 1);
        assert(d.subrange(0, j).drop_last() == d.subrange(0, j - 1));
    }
}

/// Every character of a decimal representation is an ASCII digit, and the
/// digits are worth the number they represent.
pub proof fn lemma_decimal_digits(n: nat)
    ensures
        forall|i: int| 0 <= i < decimal(n).len() ==> is_ascii_digit(#[trigger] decimal(n)[i]),
        digits_value(decimal(n)) == n,
        decimal(n).len() > 0,
    decreases n,
{
    if n < 10 {
        assert(decimal(n).drop_last() =~= Seq::<char>::empty());
        assert(decimal(n).last() == digit_char(n));
        assert(digit_value(digit_char(n)) == n);
        assert(digits_value(Seq::<char>::empty()) == 0);
        assert(digits_value(decimal(n)) == digits_value(decimal(n).drop_last()) * 10 + digit_value(
            decimal(n).last(),
        ));
    } else {
        lemma_decimal_digits(n / 10);
        let d = decimal(n);
        assert(d.drop_last() =~= decimal(n / 10));
        assert(d.last() == digit_char(n % 10));
        assert(digit_value(digit_char(n % 10)) == n % 10);
        assert((n / 10) * 10 + n % 10 == n) by (nonlinear_arith);
        assert(digits_value(d) == digits_value(d.drop_last()) * 10 + digit_value(d.last()));
        assert forall|i: int| 0 <= i < d.len() implies is_ascii_digit(#[trigger] d[i]) by {
            if i < d.len() - 1 {
                assert(d[i] == decimal(n / 10)[i]);
            }
        }
    }
}

/// Reading back the decimal representation of a number gives the number:
/// `parse_usize` reads exactly what `usize`'s `Display` writes, with or
/// without a leading `+`.
pub proof fn lemma_parse_decimal(n: usize)
    ensures
        spec_parse_usize(decimal(n as nat)) == Some(n),
        spec_parse_usize(seq!['+'] + decimal(n as nat)) == Some(n),
{
    lemma_decimal_digits(n as nat);
    let d = decimal(n as nat);
    assert(d[0] != '+') by {
        assert(is_ascii_digit(d[0]));
    }
    assert(unsigned_digits(d) == d);
    assert((seq!['+'] + d)[0] == '+');
    assert((seq!['+'] + d).skip(1) =~= d);
    assert(unsigned_digits(seq!['+'] + d) == d);
}

/// Reads `s` as `str::parse::<usize>` does (see `spec_parse_usize`).
pub fn parse_usize(s: &str) -> (r: Option<usize>)
    ensures
        r == spec_parse_usize(s@),
{
    let chars = chars_of(s);
    let n = chars.len();
    let start: usize = if n > 0 && chars[0] == '+' { 1 } else { 0 };
    let ghost d = unsigned_digits(s@);
    assert(d == chars@.subrange(start as int, n as int));
    if start == n {
        return None;
    }
    let mut value: usize = 0;
    let mut i = start;
    while i < n
        invariant
            start <= i <= n,
            n == chars@.len(),
            d == chars@.subrange(start as int, n as int),
            d == unsigned_digits(s@),
            d.len() > 0,
            value == digits_value(d.subrange(0, i - start)),
            forall|k: int| 0 <= k < i - start ==> is_ascii_digit(#[trigger] d[k]),
        decreases n - i,
    {
        let c = chars[i];
        assert(d[i - start] == c);
        if !('0' <= c && c <= '9') {
            assert(!is_ascii_digit(d[i - start]));
            return None;
        }
        let digit = digit_of(c);
        assert(d.subrange(0, i + 1 - start).drop_last() == d.subrange(0, i - start));
        assert(d.subrange(0, i + 1 - start).last() == c);
        assert(digits_value(d.subrange(0, i + 1 - start)) == value * 10 + digit);
        if value > (usize::MAX - digit) / 10 {
            proof {
                assert(value * 10 + digit > usize::MAX) by (nonlinear_arith)
                    requires
                        value > (usize::MAX - digit) / 10,
                        digit <= 9,
                ;
                lemma_digits_value_prefix_le(d, i + 1 - start, d.len() as int);
                assert(d.subrange(0, d.len() as int) == d);
            }
            return None;
        }
        assert(value * 10 + digit <= usize::MAX) by (nonlinear_arith)
            requires
                value <= (usize::MAX - digit) / 10,
                digit <= 9,
        ;
        value = value * 10 + digit;
        i = i + 1;
    }
    assert(d.subrange(0, d.len() as int) == d);
    Some(value)
}

// ---------------------------------------------------------------------------
// Devices
// ---------------------------------------------------------------------------

/// What `str::to_lowercase` returns for `s`: its lowercase equivalent by
/// Unicode's `Lowercase` property (a function of `s` alone).
pub uninterp spec fn lowercase(s: Seq<char>) -> Seq<char>;

/// Calls `str::to_lowercase`. Its result is named by `lowercase`; the
/// contract says no more of it.
#[verifier::external_body]
fn to_lowercase(s: &str) -> (r: String)
    ensures
        r@ == lowercase(s@),
{
    s.to_lowercase()
}

/// A device that the LibTorch backend can run on.
#[derive(Debug, Clone, Copy, PartialEq, Eq)]
pub enum TorchDevice {
    Cpu,
    Mps,
    Cuda(usize),
}

/// The device named by `name` once it is lowercased: `cpu`, `mps`, or `cuda`
/// followed by the device number (number 0 when what follows `cuda` is not a
/// number, as in `cuda` or `cuda:1`); no device for anything else.
pub open spec fn spec_device_from_lowercase(name: Seq<char>) -> Option<TorchDevice> {
    if name == "cpu"@ {
        Some(TorchDevice::Cpu)
    } else if name == "mps"@ {
        Some(TorchDevice::Mps)
    } else if name.len() >= 4 && name.subrange(0, 4) == "cuda"@ {
        Some(
            TorchDevice::Cuda(
                match spec_parse_usize(name.skip(4)) {
                    Some(index) => index,
                    None => 0,
                },
            ),
        )
    } else {
        None
    }
}

/// The device named by `name`, which is already lowercase (see
/// `spec_device_from_lowercase`).
pub fn device_from_lowercase(name: &str) -> (device: Option<TorchDevice>)
    ensures
        device == spec_device_from_lowercase(name@),
{
    proof {
        reveal_strlit("cuda");
    }
    if same_text(name, "cpu") {
        Some(TorchDevice::Cpu)
    } else if same_text(name, "mps") {
        Some(TorchDevice::Mps)
    } else if starts_with_text(name, "cuda") {
        let rest = name.substring_char(4, name.unicode_len());
        assert(rest@ == name@.skip(4));
        let index = match parse_usize(rest) {
            Some(index) => index,
            None => 0,
        };
        Some(TorchDevice::Cuda(index))
    } else {
        None
    }
}

/// `cuda` followed by a device number selects exactly that CUDA device, and
/// `cpu` and `mps` select the CPU and the Apple GPU.
pub proof fn lemma_device_names(n: usize)
    ensures
        spec_device_from_lowercase("cuda"@ + decimal(n as nat)) == Some(TorchDevice::Cuda(n)),
        spec_device_from_lowercase("cuda"@) == Some(TorchDevice::Cuda(0)),
        spec_device_from_lowercase("cpu"@) == Some(TorchDevice::Cpu),
        spec_device_from_lowercase("mps"@) == Some(TorchDevice::Mps),
{
    reveal_strlit("cuda");
    reveal_strlit("cpu");
    reveal_strlit("mps");
    lemma_parse_decimal(n);
    lemma_decimal_digits(n as nat);
    let name = "cuda"@ + decimal(n as nat);
    assert(name.len() >= 5);
    assert(name != "cpu"@);
    assert(name != "mps"@);
    assert(name.subrange(0, 4) =~= "cuda"@);
    assert(name.skip(4) =~= decimal(n as nat));
    assert("cuda"@ != "cpu"@);
    assert("cuda"@ != "mps"@);
    assert("cuda"@.subrange(0, 4) =~= "cuda"@);
    assert("cuda"@.skip(4) =~= Seq::<char>::empty());
    assert(unsigned_digits(Seq::<char>::empty()) == Seq::<char>::empty());
    assert("cpu"@[0] != "mps"@[0]);
    assert("cpu"@ != "mps"@);
}

/// The device that the device argument `arg` selects, whatever its case.
pub fn parse_device(arg: &str) -> (device: Option<TorchDevice>)
    ensures
        device == spec_device_from_lowercase(lowercase(arg@)),
{
    let lower = to_lowercase(arg);
    device_from_lowercase(lower.as_str())
}

// ---------------------------------------------------------------------------
// Model formats
// ---------------------------------------------------------------------------

/// The formats a Stable Diffusion model can be loaded from.
#[derive(Debug, Clone, Copy, PartialEq, Eq)]
pub enum ModelFormat {
    /// A burn record file.
    Burn,
    /// A directory holding a dump of the model's parts.
    Dump,
    /// A safetensors checkpoint.
    Safetensor,
    /// A burnpack file, as the conversion program writes it.
    Store,
}

/// The format named by a model-type argument.
pub open spec fn spec_model_format(name: Seq<char>) -> Option<ModelFormat> {
    if name == "burn"@ {
        Some(ModelFormat::Burn)
    } else if name == "dump"@ {
        Some(ModelFormat::Dump)
    } else if name == "safetensor"@ {
        Some(ModelFormat::Safetensor)
    } else if name == "store"@ {
        Some(ModelFormat::Store)
    } else {
        None
    }
}

/// Reads a model-type argument: `burn`, `dump`, `safetensor` or `store`, exactly.
pub fn parse_model_format(name: &str) -> (format: Option<ModelFormat>)
    ensures
        format == spec_model_format(name@),
{
    if same_text(name, "burn") {
        Some(ModelFormat::Burn)
    } else if same_text(name, "dump") {
        Some(ModelFormat::Dump)
    } else if same_text(name, "safetensor") {
        Some(ModelFormat::Safetensor)
    } else if same_text(name, "store") {
        Some(ModelFormat::Store)
    } else {
        None
    }
}

// ---------------------------------------------------------------------------
// Arguments of the programs
// ---------------------------------------------------------------------------

/// The arguments of the sampling program, read from
/// `<program> <model_type> <model_name> <guidance_scale> <n_steps> <prompt> <output_image_name> [device]`.
/// The guidance scale is kept as text: it is a floating-point number that
/// the program reads itself.
#[derive(Debug, Clone, PartialEq, Eq)]
pub struct SampleArgs {
    pub model_type: String,
    pub model_name: String,
    pub guidance_scale: String,
    pub n_steps: usize,
    pub prompt: String,
    pub output_image_name: String,
    pub device: TorchDevice,
}

/// Why the arguments of the sampling program were refused.
#[derive(Debug, Clone, PartialEq, Eq)]
pub enum SampleArgsError {
    /// Not 6 or 7 arguments after the program's name.
    Usage,
    /// The number of diffusion steps is not an unsigned number.
    InvalidSteps,
    /// The device argument names no device; it is kept for the message.
    UnknownDevice(String),
}

/// The device that the sampling program runs on for `args` when its device
/// argument is valid: the one it names, or the first CUDA device when there is none.
pub open spec fn spec_sample_device(args: Seq<String>) -> Option<TorchDevice> {
    if args.len() == 8 {
        spec_device_from_lowercase(lowercase(args[7]@))
    } else {
        Some(TorchDevice::Cuda(0))
    }
}

/// Reads the sampling program's arguments (`args[0]` is the program's name).
pub fn parse_sample_args(args: &Vec<String>) -> (res: Result<SampleArgs, SampleArgsError>)
    ensures
        (args.len() != 7 && args.len() != 8) <==> res == Err::<SampleArgs, SampleArgsError>(
            SampleArgsError::Usage,
        ),
        (args.len() == 7 || args.len() == 8) ==> {
            &&& spec_parse_usize(args[4]@) is None <==> res == Err::<SampleArgs, SampleArgsError>(
                SampleArgsError::InvalidSteps,
            )
            &&& (res is Err && res->Err_0 is UnknownDevice) <==> (spec_parse_usize(args[4]@) is Some
                && spec_sample_device(args@) is None)
            &&& res is Ok <==> (spec_parse_usize(args[4]@) is Some && spec_sample_device(
                args@,
            ) is Some)
        },
        res matches Err(SampleArgsError::UnknownDevice(name)) ==> name@ == args[7]@,
        res matches Ok(a) ==> {
            &&& a.model_type@ == args[1]@
            &&& a.model_name@ == args[2]@
            &&& a.guidance_scale@ == args[3]@
            &&& Some(a.n_steps) == spec_parse_usize(args[4]@)
            &&& a.prompt@ == args[5]@
            &&& a.output_image_name@ == args[6]@
            &&& Some(a.device) == spec_sample_device(args@)
        },
        // with a device argument, the device is exactly the one it names
        args.len() == 8 && res is Ok ==> Some(res->Ok_0.device) == spec_device_from_lowercase(
            lowercase(args[7]@),
        ),
        // without one, the first CUDA device
        args.len() == 7 && res is Ok ==> res->Ok_0.device == TorchDevice::Cuda(0),
        args.len() == 8 && res is Err && res->Err_0 is UnknownDevice ==> spec_device_from_lowercase(
            lowercase(args[7]@),
        ) is None,
{
    if args.len() != 7 && args.len() != 8 {
        return Err(SampleArgsError::Usage);
    }
    let n_steps = match parse_usize(args[4].as_str()) {
        Some(n) => n,
        None => {
            return Err(SampleArgsError::InvalidSteps);
        },
    };
    let device = if args.len() == 8 {
        match parse_device(args[7].as_str()) {
            Some(device) => device,
            None => {
                return Err(SampleArgsError::UnknownDevice(args[7].clone()));
            },
        }
    } else {
        TorchDevice::Cuda(0)
    };
    Ok(
        SampleArgs {
            model_type: args[1].clone(),
            model_name: args[2].clone(),
            guidance_scale: args[3].clone(),
            n_steps,
            prompt: args[5].clone(),
            output_image_name: args[6].clone(),
            device,
        },
    )
}

/// The checkpoint and the output name of the conversion program, read from
/// `<program> <checkpoint> <model_name>`; nothing for any other count.
pub fn parse_convert_args(args: &Vec<String>) -> (res: Option<(String, String)>)
    ensures
        res is Some <==> args.len() == 3,
        res matches Some(pair) ==> pair.0@ == args[1]@ && pair.1@ == args[2]@,
{
    if args.len() != 3 {
        return None;
    }
    Some((args[1].clone(), args[2].clone()))
}

/// The model file of the safetensors import program: its second argument.
pub fn import_model_name(args: &Vec<String>) -> (res: Option<String>)
    ensures
        res is Some <==> args.len() >= 3,
        res matches Some(name) ==> name@ == args[2]@,
{
    if args.len() < 3 {
        return None;
    }
    Some(args[2].clone())
}

} // verus!
