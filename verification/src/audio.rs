//! The list of applications that are playing audio: which audio sessions
//! are listed, under which name, and in which order.

use vstd::prelude::*;

use crate::text::{chars_of, concat, eq_ignore_ascii_case, lemma_text_le_total, lemma_text_le_trans, owned, text_le};

verus! {

broadcast use {vstd::seq_lib::group_seq_properties, vstd::multiset::group_multiset_axioms};

/// An application that is playing audio.
#[derive(Debug)]
pub struct AudioApp {
    pub pid: u32,
    pub name: String,
    pub icon_data_url: Option<String>,
}

/// What `std::path::Path::file_name` gives for `path`, as text. It follows
/// the path rules of the platform the library is built for (which characters
/// separate components differs between Windows and Unix), so no value of it
/// is stated here.
pub uninterp spec fn file_name_spec(path: Seq<char>) -> Option<Seq<char>>;

/// The last component of `path`, from `std::path::Path::file_name`, as text.
/// The contract claims that the outcome is `file_name_spec` of the path.
#[verifier::external_body]
fn path_file_name(path: &str) -> (r: Option<String>)
    ensures
        match r {
            Some(s) => file_name_spec(path@) == Some(s@),
            None => file_name_spec(path@) is None,
        },
{
    std::path::Path::new(path).file_name().map(|s| s.to_string_lossy().to_string())
}

/// The name of a process: the file name of its image path, or the whole path.
pub fn process_name_from_path(path: &str) -> (r: String)
    ensures
        r@ == match file_name_spec(path@) {
            Some(n) => n,
            None => path@,
        },
{
    match path_file_name(path) {
        Some(n) => n,
        None => owned(path),
    }
}

/// Whether the process named `name` is the audio engine itself, which is never listed.
pub fn is_audio_engine(name: &str) -> (r: bool)
    ensures
        r == (crate::text::ascii_lower(name@) == crate::text::ascii_lower("audiodg.exe"@)),
{
    eq_ignore_ascii_case(name, "audiodg.exe")
}

/// Whether an audio session of process `pid` is listed: not the system
/// (pid 0) and not a process listed already. A listed pid is remembered.
pub fn admit_session_pid(pid: u32, seen: &mut Vec<u32>) -> (r: bool)
    ensures
        r == (pid != 0 && !old(seen)@.contains(pid)),
        final(seen)@ == if r {
            old(seen)@.push(pid)
        } else {
            old(seen)@
        },
{
    if pid == 0 {
        return false;
    }
    let n = seen.len();
    let mut i: usize = 0;
    while i < n
        invariant
            n == seen@.len(),
            0 <= i <= n,
            forall|k: int| 0 <= k < i ==> seen@[k] != pid,
        decreases n - i,
    {
        if seen[i] == pid {
            assert(seen@[i as int] == pid);
            return false;
        }
        i = i + 1;
    }
    seen.push(pid);
    true
}

/// What `str::to_lowercase` gives for `s` (full Unicode lower case).
pub uninterp spec fn lowercase_spec(s: Seq<char>) -> Seq<char>;

/// `s` in Unicode lower case, from `str::to_lowercase`. The contract claims
/// that the outcome is `lowercase_spec` of the text.
#[verifier::external_body]
fn unicode_lowercase(s: &str) -> (r: String)
    ensures
        r@ == lowercase_spec(s@),
{
    s.to_lowercase()
}

/// The key by which applications are ordered: the lower-case name.
pub open spec fn app_key(a: AudioApp) -> Seq<char> {
    lowercase_spec(a.name@)
}

/// Whether `apps` is ordered by key.
pub open spec fn sorted_by_key(apps: Seq<AudioApp>) -> bool {
    forall|i: int, j: int| 0 <= i < j < apps.len() ==> text_le(app_key(apps[i]), app_key(apps[j]))
}

/// Whether `a <= b` in `text_le`, computed character by character.
fn text_le_exec(a: &Vec<char>, b: &Vec<char>) -> (r: bool)
    ensures
        r == text_le(a@, b@),
{
    let n = a.len();
    let m = b.len();
    let mut i: usize = 0;
    assert(a@.subrange(0, n as int) =~= a@);
    assert(b@.subrange(0, m as int) =~= b@);
    while i < n && i < m && a[i] == b[i]
        invariant
            n == a@.len(),
            m == b@.len(),
            0 <= i <= n,
            i <= m,
            text_le(a@, b@) == text_le(a@.subrange(i as int, n as int), b@.subrange(i as int, m as int)),
        decreases n - i,
    {
        assert(a@.subrange(i as int, n as int).drop_first() =~= a@.subrange(i + 1, n as int));
        assert(b@.subrange(i as int, m as int).drop_first() =~= b@.subrange(i + 1, m as int));
        i = i + 1;
    }
    if i == n {
        return true;
    }
    if i == m {
        return false;
    }
    assert(a@.subrange(i as int, n as int)[0] == a@[i as int]);
    assert(b@.subrange(i as int, m as int)[0] == b@[i as int]);
    a[i] < b[i]
}

/// Where `x` goes in the ordered `s` when only its first `n` entries are
/// looked at from the back: after the last of them whose key is not above its key.
pub open spec fn insert_pos(s: Seq<AudioApp>, x: AudioApp, n: int) -> int
    decreases n,
{
    if n <= 0 {
        0
    } else if text_le(app_key(s[n - 1]), app_key(x)) {
        n
    } else {
        insert_pos(s, x, n - 1)
    }
}

/// `apps` in stable order of key: each application is put after every
/// earlier one whose key is not above its own.
pub open spec fn stable_sorted(apps: Seq<AudioApp>) -> Seq<AudioApp>
    decreases apps.len(),
{
    if apps.len() == 0 {
        Seq::empty()
    } else {
        let prev = stable_sorted(apps.drop_last());
        prev.insert(insert_pos(prev, apps.last(), prev.len() as int), apps.last())
    }
}

/// The applications ordered by lower-case name; applications with the same
/// key keep their order.
pub fn sort_audio_apps(apps: Vec<AudioApp>) -> (r: Vec<AudioApp>)
    ensures
        r@ == stable_sorted(apps@),
        r@.to_multiset() == apps@.to_multiset(),
        sorted_by_key(r@),
{
    let mut out: Vec<AudioApp> = Vec::new();
    let mut rest = apps;
    let ghost total = rest@;
    let mut keys: Vec<Vec<char>> = Vec::new();
    let ghost mut done: int = 0;
    while rest.len() > 0
        invariant
            0 <= done <= total.len(),
            rest@ == total.skip(done),
            out@ == stable_sorted(total.take(done)),
            out@.len() == keys@.len(),
            forall|k: int| 0 <= k < keys@.len() ==> #[trigger] keys@[k]@ == app_key(out@[k]),
            sorted_by_key(out@),
            out@.to_multiset().add(rest@.to_multiset()) == total.to_multiset(),
        decreases rest@.len(),
    {
        let ghost rest_before = rest@;
        let ghost out_before_ms = out@.to_multiset();
        let app = rest.remove(0);
        proof {
            vstd::seq_lib::to_multiset_remove(rest_before, 0);
        }
        let lower = unicode_lowercase(app.name.as_str());
        let key = chars_of(lower.as_str());
        let n = out.len();
        let mut pos: usize = n;
        while pos > 0 && !text_le_exec(&keys[pos - 1], &key)
            invariant
                n == out@.len(),
                n == keys@.len(),
                0 <= pos <= n,
                key@ == app_key(app),
                insert_pos(out@, app, n as int) == insert_pos(out@, app, pos as int),
                forall|k: int| pos <= k < n ==> !text_le(#[trigger] app_key(out@[k]), key@),
                forall|k: int| 0 <= k < keys@.len() ==> #[trigger] keys@[k]@ == app_key(out@[k]),
            decreases pos,
        {
            pos = pos - 1;
        }
        let ghost before = out@;
        let ghost key_v = key@;
        proof {
            assert forall|k: int| pos <= k < n implies text_le(key_v, #[trigger] app_key(before[k])) by {
                lemma_text_le_total(app_key(before[k]), key_v);
            }
            if pos > 0 {
                assert(text_le(app_key(before[pos - 1]), key_v));
            }
        }
        assert(key@ == app_key(app));
        proof {
            assert(rest_before[0] == total[done]);
            assert(total.take(done + 1).drop_last() =~= total.take(done));
            assert(total.take(done + 1).last() == total[done]);
            if pos > 0 {
                assert(text_le(app_key(before[pos - 1]), app_key(app)));
            }
            assert(insert_pos(before, app, pos as int) == pos);
        }
        out.insert(pos, app);
        keys.insert(pos, key);
        proof {
            let after = out@;
            assert(after =~= before.subrange(0, pos as int).push(after[pos as int]) + before.subrange(pos as int, n as int));
            assert forall|i: int, j: int| 0 <= i < j < after.len() implies text_le(app_key(after[i]), app_key(after[j])) by {
                if j < pos {
                    assert(after[i] == before[i] && after[j] == before[j]);
                } else if i > pos {
                    assert(after[i] == before[i - 1] && after[j] == before[j - 1]);
                } else if i == pos {
                    assert(after[j] == before[j - 1]);
                } else if j == pos {
                    assert(after[i] == before[i]);
                    if pos > 0 && i < pos - 1 {
                        lemma_text_le_trans(app_key(before[i]), app_key(before[pos - 1]), key_v);
                    }
                } else {
                    assert(i < pos && pos < j);
                    assert(after[i] == before[i] && after[j] == before[j - 1]);
                    if pos > 0 {
                        if i < pos - 1 {
                            lemma_text_le_trans(app_key(before[i]), app_key(before[pos - 1]), key_v);
                        }
                        lemma_text_le_trans(app_key(before[i]), key_v, app_key(before[j - 1]));
                    }
                }
            }
            vstd::seq_lib::to_multiset_insert(before, pos as int, after[pos as int]);
            assert(after == before.insert(pos as int, after[pos as int]));
            assert(rest_before.to_multiset().count(after[pos as int]) > 0) by {
                vstd::seq_lib::to_multiset_build(Seq::<AudioApp>::empty(), rest_before[0]);
                assert(rest_before.contains(rest_before[0]));
            }
            assert(out@.to_multiset().add(rest@.to_multiset()) =~= total.to_multiset());
            assert(rest@ =~= total.skip(done + 1));
            done = done + 1;
        }
    }
    proof {
        assert(rest@ =~= Seq::<AudioApp>::empty());
        assert(done == total.len());
        assert(total.take(done) =~= total);
    }
    out
}

/// The pixels of `bgra` (blue, green, red, alpha) with blue and red
/// swapped; a trailing partial pixel is dropped.
pub open spec fn swizzle_spec(bgra: Seq<u8>) -> Seq<u8> {
    Seq::new(
        (bgra.len() / 4 * 4) as nat,
        |i: int|
            if i % 4 == 0 {
                bgra[i + 2]
            } else if i % 4 == 2 {
                bgra[i - 2]
            } else {
                bgra[i]
            },
    )
}

/// Reorders pixels from blue-green-red-alpha to red-green-blue-alpha.
pub fn bgra_to_rgba(bgra: &[u8]) -> (rgba: Vec<u8>)
    ensures
        rgba@ == swizzle_spec(bgra@),
{
    let n = bgra.len();
    let pixels = n / 4;
    let ghost target = swizzle_spec(bgra@);
    let mut out: Vec<u8> = Vec::new();
    let mut i: usize = 0;
    while i < pixels
        invariant
            n == bgra@.len(),
            pixels == n / 4,
            target == swizzle_spec(bgra@),
            target.len() == 4 * pixels,
            0 <= i <= pixels,
            out@ == target.take(4 * i),
        decreases pixels - i,
    {
        let b = 4 * i;
        assert(target[b as int] == bgra@[b + 2]);
        assert(target[b + 1] == bgra@[b + 1]);
        assert(target[b + 2] == bgra@[b as int]);
        assert(target[b + 3] == bgra@[b + 3]);
        out.push(bgra[b + 2]);
        out.push(bgra[b + 1]);
        out.push(bgra[b]);
        out.push(bgra[b + 3]);
        assert(out@ =~= target.take(4 * (i + 1)));
        i = i + 1;
    }
    assert(target.take(4 * pixels) =~= target);
    out
}

/// What the `png` encoder of `image` writes for an 8-bit RGBA image of
/// `width` by `height` pixels, or nothing when it reports an error.
pub uninterp spec fn png_rgba8_spec(rgba: Seq<u8>, width: u32, height: u32) -> Option<Seq<u8>>;

/// Encodes an 8-bit RGBA image as PNG with `image::codecs::png::PngEncoder`
/// and `ImageEncoder::write_image`, which panics unless the buffer holds
/// exactly four bytes per pixel. The contract claims that the outcome is
/// `png_rgba8_spec` of the arguments.
#[verifier::external_body]
fn encode_png_rgba8(rgba: &[u8], width: u32, height: u32) -> (r: Option<Vec<u8>>)
    requires
        rgba@.len() == width as int * height as int * 4,
    ensures
        match r {
            Some(png) => png_rgba8_spec(rgba@, width, height) == Some(png@),
            None => png_rgba8_spec(rgba@, width, height) is None,
        },
{
    let mut png: Vec<u8> = Vec::new();
    let encoder = image::codecs::png::PngEncoder::new(&mut png);
    image::ImageEncoder::write_image(encoder, rgba, width, height, image::ExtendedColorType::Rgba8).ok().map(|_| png)
}

/// The character of the six-bit value `v` in the standard base64 alphabet:
/// `A`-`Z`, `a`-`z`, `0`-`9`, `+` and `/`.
pub open spec fn base64_char(v: int) -> char {
    if v < 26 {
        ('A' as int + v) as char
    } else if v < 52 {
        ('a' as int + (v - 26)) as char
    } else if v < 62 {
        ('0' as int + (v - 52)) as char
    } else if v == 62 {
        '+'
    } else {
        '/'
    }
}

/// The standard base64 text of `bytes`, with padding: each group of three
/// bytes, read as a 24-bit number, gives four characters of six bits each,
/// most significant first; a last group of one or two bytes is filled with
/// zero bits and ends in `==` or `=`.
pub open spec fn base64_standard_spec(bytes: Seq<u8>) -> Seq<char>
    decreases bytes.len(),
{
    if bytes.len() == 0 {
        Seq::empty()
    } else if bytes.len() == 1 {
        let n = bytes[0] as int;
        seq![base64_char(n / 4), base64_char((n % 4) * 16), '=', '=']
    } else if bytes.len() == 2 {
        let n = bytes[0] as int * 256 + bytes[1] as int;
        seq![base64_char(n / 1024), base64_char((n / 16) % 64), base64_char((n % 16) * 4), '=']
    } else {
        let n = bytes[0] as int * 65536 + bytes[1] as int * 256 + bytes[2] as int;
        seq![base64_char(n / 262144), base64_char((n / 4096) % 64), base64_char((n / 64) % 64), base64_char(n % 64)]
            + base64_standard_spec(bytes.subrange(3, bytes.len() as int))
    }
}

/// Encodes `bytes` with `base64::engine::general_purpose::STANDARD` (the
/// standard alphabet, with padding), which panics when the length of the
/// text would overflow. The contract claims that the text is
/// `base64_standard_spec` of the bytes.
#[verifier::external_body]
fn base64_standard(bytes: &[u8]) -> (r: String)
    requires
        bytes@.len() < usize::MAX / 2,
    ensures
        r@ == base64_standard_spec(bytes@),
{
    base64::Engine::encode(&base64::engine::general_purpose::STANDARD, bytes)
}

/// The data URL of the icon whose `width` by `height` pixels are `bgra`
/// (blue, green, red, alpha): the pixels as a PNG image, in base64.
pub open spec fn icon_data_url_spec(bgra: Seq<u8>, width: u32, height: u32) -> Option<Seq<char>> {
    match png_rgba8_spec(swizzle_spec(bgra), width, height) {
        Some(png) => if png.len() < usize::MAX / 2 {
            Some("data:image/png;base64,"@ + base64_standard_spec(png))
        } else {
            None
        },
        None => None,
    }
}

/// The view of an optional string.
pub open spec fn opt_string(o: Option<String>) -> Option<Seq<char>> {
    match o {
        Some(s) => Some(s@),
        None => None,
    }
}

/// The data URL of an icon drawn as `width` by `height` pixels `bgra`.
pub fn icon_data_url(bgra: &[u8], width: u32, height: u32) -> (r: Option<String>)
    requires
        bgra@.len() == width as int * height as int * 4,
    ensures
        opt_string(r) == icon_data_url_spec(bgra@, width, height),
{
    let rgba = bgra_to_rgba(bgra);
    let ghost wh = width as int * height as int;
    assert(bgra@.len() / 4 * 4 == bgra@.len()) by {
        assert((wh * 4) / 4 == wh) by (nonlinear_arith);
    }
    match encode_png_rgba8(rgba.as_slice(), width, height) {
        Some(png) => {
            if png.len() < usize::MAX / 2 {
                let b = base64_standard(png.as_slice());
                Some(concat("data:image/png;base64,", b.as_str()))
            } else {
                None
            }
        },
        None => None,
    }
}

/// Where captured audio comes from: all system output, or one process tree.
#[derive(Clone, Copy, Debug, PartialEq, Eq, Structural)]
pub enum CaptureSource {
    System,
    Process(u32),
}

/// Decides how a capture starts: never twice at once; the audio of process
/// `process_id` when one is given (only where process capture is
/// supported), else all system output.
pub fn capture_source(already_running: bool, process_id: Option<u32>, process_capture_supported: bool) -> (r: Result<CaptureSource, String>)
    ensures
        already_running ==> (r matches Err(m) && m@ == "Audio capture is already running"@),
        !already_running ==> match process_id {
            Some(pid) => if process_capture_supported {
                r == Ok::<CaptureSource, String>(CaptureSource::Process(pid))
            } else {
                (r matches Err(m) && m@ == "Process audio capture is only supported on Windows"@)
            },
            None => r == Ok::<CaptureSource, String>(CaptureSource::System),
        },
{
    if already_running {
        return Err(owned("Audio capture is already running"));
    }
    match process_id {
        Some(pid) => if process_capture_supported {
            Ok(CaptureSource::Process(pid))
        } else {
            Err(owned("Process audio capture is only supported on Windows"))
        },
        None => Ok(CaptureSource::System),
    }
}

/// The decimal digit `d` (below ten) as a character.
pub open spec fn digit_char(d: nat) -> char {
    if d == 0 {
        '0'
    } else if d == 1 {
        '1'
    } else if d == 2 {
        '2'
    } else if d == 3 {
        '3'
    } else if d == 4 {
        '4'
    } else if d == 5 {
        '5'
    } else if d == 6 {
        '6'
    } else if d == 7 {
        '7'
    } else if d == 8 {
        '8'
    } else {
        '9'
    }
}

/// `n` written in decimal, as `Display` writes an unsigned integer.
pub open spec fn decimal(n: nat) -> Seq<char>
    decreases n,
{
    if n < 10 {
        seq![digit_char(n)]
    } else {
        decimal(n / 10).push(digit_char(n % 10))
    }
}

fn digit_text(d: u32) -> (c: char)
    requires
        d < 10,
    ensures
        c == digit_char(d as nat),
{
    match d {
        0 => '0',
        1 => '1',
        2 => '2',
        3 => '3',
        4 => '4',
        5 => '5',
        6 => '6',
        7 => '7',
        8 => '8',
        _ => '9',
    }
}

fn decimal_text(n: u32) -> (r: String)
    ensures
        r@ == decimal(n as nat),
    decreases n,
{
    let d = digit_text(n % 10);
    if n < 10 {
        let mut s = String::new();
        crate::text::push_char(&mut s, d);
        assert(s@ =~= seq![d]);
        s
    } else {
        let mut s = decimal_text(n / 10);
        crate::text::push_char(&mut s, d);
        s
    }
}

/// How the samples of one captured packet are read.
#[derive(Clone, Copy, Debug, PartialEq, Eq, Structural)]
pub enum PacketEncoding {
    Silence,
    Float32,
    Pcm16,
}

/// How a packet is read: a packet flagged silent is silence, whatever the
/// format; otherwise only 32-bit floating-point and 16-bit integer samples
/// are read, and any other format is an error that names it.
pub open spec fn packet_encoding_spec(silent: bool, is_float: bool, bits_per_sample: u16) -> Result<PacketEncoding, Seq<char>> {
    if silent {
        Ok(PacketEncoding::Silence)
    } else if is_float && bits_per_sample == 32 {
        Ok(PacketEncoding::Float32)
    } else if !is_float && bits_per_sample == 16 {
        Ok(PacketEncoding::Pcm16)
    } else {
        Err(
            "Unsupported audio format (float="@ + (if is_float {
                "true"@
            } else {
                "false"@
            }) + ", bits="@ + decimal(bits_per_sample as nat) + ")"@,
        )
    }
}

/// How the samples of a captured packet are read, as `packet_encoding_spec` says.
pub fn packet_encoding(silent: bool, is_float: bool, bits_per_sample: u16) -> (r: Result<PacketEncoding, String>)
    ensures
        match r {
            Ok(e) => packet_encoding_spec(silent, is_float, bits_per_sample) == Ok::<PacketEncoding, Seq<char>>(e),
            Err(m) => packet_encoding_spec(silent, is_float, bits_per_sample) == Err::<PacketEncoding, Seq<char>>(m@),
        },
{
    if silent {
        return Ok(PacketEncoding::Silence);
    }
    if is_float && bits_per_sample == 32 {
        return Ok(PacketEncoding::Float32);
    }
    if !is_float && bits_per_sample == 16 {
        return Ok(PacketEncoding::Pcm16);
    }
    let flag = if is_float {
        "true"
    } else {
        "false"
    };
    let a = concat("Unsupported audio format (float=", flag);
    let b = concat(a.as_str(), ", bits=");
    let digits = decimal_text(bits_per_sample as u32);
    let c = concat(b.as_str(), digits.as_str());
    Err(concat(c.as_str(), ")"))
}

/// The format tag of integer PCM samples (`WAVE_FORMAT_PCM`).
pub const WAVE_FORMAT_PCM_TAG: u32 = 1;

/// The format tag of floating-point samples (`WAVE_FORMAT_IEEE_FLOAT`).
pub const WAVE_FORMAT_IEEE_FLOAT_TAG: u32 = 3;

/// The format tag of a format described by its sub-format (`WAVE_FORMAT_EXTENSIBLE`).
pub const WAVE_FORMAT_EXTENSIBLE_TAG: u32 = 0xFFFE;

/// The sub-format of an extensible mix format.
#[derive(Clone, Copy, Debug, PartialEq, Eq, Structural)]
pub enum SubFormat {
    IeeeFloat,
    Pcm,
    Other,
}

/// Whether the samples of a mix format are floating point, and their size
/// in bits: from the format tag, or from the sub-format of an extensible
/// format (whose own sample size is `ext_bits`); any other format is an error.
pub open spec fn mix_format_spec(tag: u32, bits: u16, sub_format: SubFormat, ext_bits: u16) -> Result<(bool, u16), Seq<char>> {
    if tag == WAVE_FORMAT_IEEE_FLOAT_TAG {
        Ok((true, bits))
    } else if tag == WAVE_FORMAT_PCM_TAG {
        Ok((false, bits))
    } else if tag == WAVE_FORMAT_EXTENSIBLE_TAG {
        match sub_format {
            SubFormat::IeeeFloat => Ok((true, ext_bits)),
            SubFormat::Pcm => Ok((false, ext_bits)),
            SubFormat::Other => Err("Unsupported mix format subformat"@),
        }
    } else {
        Err("Unsupported mix format tag"@)
    }
}

/// Reads a mix format as `mix_format_spec` says.
pub fn mix_format(tag: u32, bits: u16, sub_format: SubFormat, ext_bits: u16) -> (r: Result<(bool, u16), String>)
    ensures
        match r {
            Ok(x) => mix_format_spec(tag, bits, sub_format, ext_bits) == Ok::<(bool, u16), Seq<char>>(x),
            Err(m) => mix_format_spec(tag, bits, sub_format, ext_bits) == Err::<(bool, u16), Seq<char>>(m@),
        },
{
    if tag == WAVE_FORMAT_IEEE_FLOAT_TAG {
        Ok((true, bits))
    } else if tag == WAVE_FORMAT_PCM_TAG {
        Ok((false, bits))
    } else if tag == WAVE_FORMAT_EXTENSIBLE_TAG {
        match sub_format {
            SubFormat::IeeeFloat => Ok((true, ext_bits)),
            SubFormat::Pcm => Ok((false, ext_bits)),
            SubFormat::Other => Err(owned("Unsupported mix format subformat")),
        }
    } else {
        Err(owned("Unsupported mix format tag"))
    }
}

} // verus!
