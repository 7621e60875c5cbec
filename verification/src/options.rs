//! The settings of a conversion and the options that change them.

use vstd::prelude::*;
use crate::cli::texts;
use crate::number::{IntError, parse_unsigned, parse_i32_spec, decimal, parse_u32, parse_u8, parse_i32, push_decimal};
use crate::picture::Picture;
use crate::text::{copy_range, append_bytes, same_bytes};
use crate::words;

verus! {

/// Everything a conversion needs: the image and how to write it out.
pub struct ConverArgs {
    pub image: Picture,
    pub resolutions: Vec<u32>,
    pub output_directory: Vec<u8>,
    pub name: Vec<u8>,
    pub webp_quality: u32,
    pub webp_method: i32,
    pub avif_quality: u32,
    pub avif_speed: u8,
    pub use_webp: bool,
    pub use_avif: bool,
    pub use_thumbhash: u32,
    pub output_cli: bool,
}

/// The part of the settings that options change.
pub struct SettingsView {
    pub resolutions: Seq<u32>,
    pub output_directory: Seq<u8>,
    pub webp_quality: u32,
    pub webp_method: i32,
    pub avif_quality: u32,
    pub avif_speed: u8,
    pub use_webp: bool,
    pub use_avif: bool,
}

/// Why the options cannot be applied.
#[derive(Clone, Copy, Debug, PartialEq, Eq, Structural)]
pub enum OptionError {
    /// A quality, method or speed is not a number of its type (the command panics).
    BadNumber(IntError),
    /// A resolution is not a `u32`.
    BadResolution(IntError),
    /// A resolution is over 4000.
    TooBig(u32),
}

impl OptionError {
    /// The text the command prints (or, for `BadNumber`, panics with).
    pub open spec fn message_spec(self) -> Seq<u8> {
        match self {
            OptionError::BadNumber(e) => words::unwrap_head() + words::parse_error_head() + e.kind_name_spec()
                + words::parse_error_tail(),
            OptionError::BadResolution(e) => words::bad_format_head() + e.message_spec(),
            OptionError::TooBig(r) => words::too_big_head() + decimal(r as nat) + words::too_big_tail(),
        }
    }

    /// The text the command prints (or, for `BadNumber`, panics with).
    pub fn message(&self) -> (res: Vec<u8>)
        ensures
            res@ == self.message_spec(),
    {
        match self {
            OptionError::BadNumber(e) => {
                let mut m = words::unwrap_head_bytes();
                append_bytes(&mut m, &words::parse_error_head_bytes());
                append_bytes(&mut m, &e.kind_name());
                append_bytes(&mut m, &words::parse_error_tail_bytes());
                m
            },
            OptionError::BadResolution(e) => {
                let mut m = words::bad_format_head_bytes();
                append_bytes(&mut m, &e.message());
                m
            },
            OptionError::TooBig(r) => {
                let mut m = words::too_big_head_bytes();
                push_decimal(&mut m, *r);
                append_bytes(&mut m, &words::too_big_tail_bytes());
                m
            },
        }
    }
}

impl ConverArgs {
    /// The settings that options change.
    pub open spec fn settings(&self) -> SettingsView {
        SettingsView {
            resolutions: self.resolutions@,
            output_directory: self.output_directory@,
            webp_quality: self.webp_quality,
            webp_method: self.webp_method,
            avif_quality: self.avif_quality,
            avif_speed: self.avif_speed,
            use_webp: self.use_webp,
            use_avif: self.use_avif,
        }
    }

    /// The starting settings: no image yet, no resolutions, output to
    /// `output_directory`, WebP quality 82 and method 6, AVIF quality 82 and speed 3,
    /// no format chosen, no thumbnail, files rather than printed records.
    pub fn new(output_directory: Vec<u8>) -> (res: ConverArgs)
        ensures
            res.image.width == 0 && res.image.height == 0 && res.image.wf(),
            res.resolutions@.len() == 0,
            res.output_directory@ == output_directory@,
            res.name@.len() == 0,
            res.webp_quality == 82,
            res.webp_method == 6,
            res.avif_quality == 82,
            res.avif_speed == 3,
            !res.use_webp,
            !res.use_avif,
            res.use_thumbhash == 0,
            !res.output_cli,
    {
        ConverArgs {
            image: Picture::empty(),
            resolutions: Vec::new(),
            output_directory,
            name: Vec::new(),
            webp_quality: 82,
            webp_method: 6,
            avif_quality: 82,
            avif_speed: 3,
            use_webp: false,
            use_avif: false,
            use_thumbhash: 0,
            output_cli: false,
        }
    }

    /// Takes an image read into memory: it is named `image` unless it has a name,
    /// and the outputs are printed as records.
    pub fn take_memory_image(&mut self, image: Picture)
        ensures
            final(self).image == image,
            final(self).name@ == (if old(self).name@.len() == 0 { words::default_name() } else { old(self).name@ }),
            final(self).output_cli,
            final(self).settings() == old(self).settings(),
            final(self).use_thumbhash == old(self).use_thumbhash,
    {
        self.image = image;
        if self.name.len() == 0 {
            self.name = words::default_name_bytes();
        }
        self.output_cli = true;
    }

    /// Takes an image read from the file named `name`.
    pub fn take_file_image(&mut self, image: Picture, name: Vec<u8>)
        ensures
            final(self).image == image,
            final(self).name == name,
            final(self).output_cli == old(self).output_cli,
            final(self).settings() == old(self).settings(),
            final(self).use_thumbhash == old(self).use_thumbhash,
    {
        self.name = name;
        self.image = image;
    }
}

// ---------------------------------------------------------------------------
// Options
// ---------------------------------------------------------------------------

/// The index of the first `b` in `s`, or its length when there is none.
pub open spec fn find(s: Seq<u8>, b: u8) -> nat
    decreases s.len(),
{
    if s.len() == 0 {
        0
    } else if s[0] == b {
        0
    } else {
        1 + find(s.drop_first(), b)
    }
}

proof fn lemma_find(s: Seq<u8>, b: u8, k: int)
    requires
        0 <= k <= s.len(),
        forall|j: int| 0 <= j < k ==> s[j] != b,
        k < s.len() ==> s[k] == b,
    ensures
        find(s, b) == k,
    decreases s.len(),
{
    if s.len() > 0 && k > 0 {
        assert forall|j: int| 0 <= j < k - 1 implies s.drop_first()[j] != b by {
            assert(s.drop_first()[j] == s[j + 1]);
        }
        lemma_find(s.drop_first(), b, k - 1);
    }
}

/// The index of the first `b` in `s[from..]`, counted from the start of `s`.
fn find_from(s: &[u8], from: usize, b: u8) -> (res: usize)
    requires
        from <= s.len(),
    ensures
        from <= res <= s.len(),
        res - from == find(s@.skip(from as int), b),
{
    let mut k: usize = from;
    while k < s.len() && s[k] != b
        invariant
            from <= k <= s.len(),
            forall|j: int| from <= j < k ==> s@[j] != b,
        decreases s.len() - k,
    {
        k = k + 1;
    }
    proof {
        lemma_find(s@.skip(from as int), b, k - from);
    }
    k
}

/// The name of an option `name=value`: the text before its first `=`.
pub open spec fn option_name(arg: Seq<u8>) -> Seq<u8> {
    arg.take(find(arg, 61) as int)
}

/// The value of an option `name=value`: the text between its first and its
/// second `=` (or its end).
pub open spec fn option_value(arg: Seq<u8>) -> Seq<u8> {
    let rest = arg.skip(find(arg, 61) as int + 1);
    rest.take(find(rest, 61) as int)
}

/// Adds the comma-separated resolutions of `v` to `acc`: each part must be a `u32`
/// no larger than 4000, and the first part that is not stops the reading.
pub open spec fn read_resolutions(acc: Seq<u32>, v: Seq<u8>) -> Result<Seq<u32>, OptionError>
    decreases v.len(),
{
    let k = find(v, 44) as int;
    match parse_unsigned(v.take(k), u32::MAX as int) {
        Err(e) => Err(OptionError::BadResolution(e)),
        Ok(r) => if r > 4000 {
            Err(OptionError::TooBig(r as u32))
        } else if k < v.len() {
            read_resolutions(acc.push(r as u32), v.skip(k + 1))
        } else {
            Ok(acc.push(r as u32))
        },
    }
}

/// What one argument does to the settings: `-webp` and `-avif` choose a format;
/// `-webp-quality=`, `-webp-method=`, `-avif-quality=` and `-avif-speed=` set a
/// number (the quality of WebP chooses WebP, the other three choose AVIF);
/// `-output=` sets the directory; `-resolutions=` adds resolutions. Other
/// arguments change nothing.
pub open spec fn apply_arg(s: SettingsView, arg: Seq<u8>) -> Result<SettingsView, OptionError> {
    if arg == words::webp_flag() {
        Ok(SettingsView { use_webp: true, ..s })
    } else if arg == words::avif_flag() {
        Ok(SettingsView { use_avif: true, ..s })
    } else if find(arg, 61) < arg.len() {
        let name = option_name(arg);
        let value = option_value(arg);
        if name == words::webp_quality_flag() {
            match parse_unsigned(value, u32::MAX as int) {
                Ok(v) => Ok(SettingsView { use_webp: true, webp_quality: v as u32, ..s }),
                Err(e) => Err(OptionError::BadNumber(e)),
            }
        } else if name == words::webp_method_flag() {
            match parse_i32_spec(value) {
                Ok(v) => Ok(SettingsView { use_avif: true, webp_method: v as i32, ..s }),
                Err(e) => Err(OptionError::BadNumber(e)),
            }
        } else if name == words::avif_quality_flag() {
            match parse_unsigned(value, u32::MAX as int) {
                Ok(v) => Ok(SettingsView { use_avif: true, avif_quality: v as u32, ..s }),
                Err(e) => Err(OptionError::BadNumber(e)),
            }
        } else if name == words::avif_speed_flag() {
            match parse_unsigned(value, u8::MAX as int) {
                Ok(v) => Ok(SettingsView { use_avif: true, avif_speed: v as u8, ..s }),
                Err(e) => Err(OptionError::BadNumber(e)),
            }
        } else if name == words::output_flag() {
            Ok(SettingsView { output_directory: value, ..s })
        } else if name == words::resolutions_flag() {
            match read_resolutions(s.resolutions, value) {
                Ok(rs) => Ok(SettingsView { resolutions: rs, ..s }),
                Err(e) => Err(e),
            }
        } else {
            Ok(s)
        }
    } else {
        Ok(s)
    }
}

/// The settings after all of `args`, in order; the first argument that fails
/// stops the reading.
pub open spec fn apply_all(s: SettingsView, args: Seq<Seq<u8>>) -> Result<SettingsView, OptionError>
    decreases args.len(),
{
    if args.len() == 0 {
        Ok(s)
    } else {
        match apply_arg(s, args[0]) {
            Ok(t) => apply_all(t, args.drop_first()),
            Err(e) => Err(e),
        }
    }
}

/// The settings while options are read.
struct Settings {
    resolutions: Vec<u32>,
    output_directory: Vec<u8>,
    webp_quality: u32,
    webp_method: i32,
    avif_quality: u32,
    avif_speed: u8,
    use_webp: bool,
    use_avif: bool,
}

impl View for Settings {
    type V = SettingsView;

    closed spec fn view(&self) -> SettingsView {
        SettingsView {
            resolutions: self.resolutions@,
            output_directory: self.output_directory@,
            webp_quality: self.webp_quality,
            webp_method: self.webp_method,
            avif_quality: self.avif_quality,
            avif_speed: self.avif_speed,
            use_webp: self.use_webp,
            use_avif: self.use_avif,
        }
    }
}

/// Adds the resolutions of `v` to `acc`.
fn add_resolutions(acc: &mut Vec<u32>, v: &[u8]) -> (res: Result<(), OptionError>)
    ensures
        match read_resolutions(old(acc)@, v@) {
            Ok(rs) => res is Ok && final(acc)@ == rs,
            Err(e) => res == Err::<(), OptionError>(e),
        },
{
    let mut start: usize = 0;
    assert(v@.skip(0) =~= v@);
    loop
        invariant
            start <= v.len(),
            read_resolutions(old(acc)@, v@) == read_resolutions(acc@, v@.skip(start as int)),
        decreases v.len() - start,
    {
        let ghost part = v@.skip(start as int);
        let k: usize = find_from(v, start, 44);
        let piece = copy_range(v, start, k);
        assert(piece@ =~= part.take(find(part, 44) as int));
        match parse_u32(&piece) {
            Err(e) => {
                return Err(OptionError::BadResolution(e));
            },
            Ok(r) => {
                if r > 4000 {
                    return Err(OptionError::TooBig(r));
                }
                acc.push(r);
                if k == v.len() {
                    return Ok(());
                }
                assert(part.skip(k - start + 1) =~= v@.skip(k + 1));
                start = k + 1;
            },
        }
    }
}

/// Applies one argument to the settings.
fn apply_one(s: &mut Settings, arg: &[u8]) -> (res: Result<(), OptionError>)
    ensures
        match apply_arg(old(s)@, arg@) {
            Ok(t) => res is Ok && final(s)@ == t,
            Err(e) => res == Err::<(), OptionError>(e),
        },
{
    if same_bytes(arg, &words::webp_flag_bytes()) {
        s.use_webp = true;
        return Ok(());
    }
    if same_bytes(arg, &words::avif_flag_bytes()) {
        s.use_avif = true;
        return Ok(());
    }
    let eq: usize = find_from(arg, 0, 61);
    assert(arg@.skip(0) =~= arg@);
    if eq == arg.len() {
        return Ok(());
    }
    let name = copy_range(arg, 0, eq);
    let end: usize = find_from(arg, eq + 1, 61);
    let value = copy_range(arg, eq + 1, end);
    assert(name@ =~= option_name(arg@));
    assert(value@ =~= option_value(arg@));
    if same_bytes(&name, &words::webp_quality_flag_bytes()) {
        match parse_u32(&value) {
            Ok(v) => {
                s.use_webp = true;
                s.webp_quality = v;
                Ok(())
            },
            Err(e) => Err(OptionError::BadNumber(e)),
        }
    } else if same_bytes(&name, &words::webp_method_flag_bytes()) {
        match parse_i32(&value) {
            Ok(v) => {
                s.use_avif = true;
                s.webp_method = v;
                Ok(())
            },
            Err(e) => Err(OptionError::BadNumber(e)),
        }
    } else if same_bytes(&name, &words::avif_quality_flag_bytes()) {
        match parse_u32(&value) {
            Ok(v) => {
                s.use_avif = true;
                s.avif_quality = v;
                Ok(())
            },
            Err(e) => Err(OptionError::BadNumber(e)),
        }
    } else if same_bytes(&name, &words::avif_speed_flag_bytes()) {
        match parse_u8(&value) {
            Ok(v) => {
                s.use_avif = true;
                s.avif_speed = v;
                Ok(())
            },
            Err(e) => Err(OptionError::BadNumber(e)),
        }
    } else if same_bytes(&name, &words::output_flag_bytes()) {
        s.output_directory = value;
        Ok(())
    } else if same_bytes(&name, &words::resolutions_flag_bytes()) {
        add_resolutions(&mut s.resolutions, &value)
    } else {
        Ok(())
    }
}

/// Copies a list of resolutions.
fn copy_resolutions(v: &Vec<u32>) -> (res: Vec<u32>)
    ensures
        res@ == v@,
{
    let mut res: Vec<u32> = Vec::new();
    let mut i: usize = 0;
    while i < v.len()
        invariant
            i <= v.len(),
            res@ == v@.take(i as int),
        decreases v.len() - i,
    {
        res.push(v[i]);
        i = i + 1;
        assert(v@.take(i as int) =~= v@.take(i - 1).push(v@[i - 1]));
    }
    assert(v@.take(i as int) =~= v@);
    res
}

impl ConverArgs {
    /// Applies every argument of `args` as an option, in order. When one fails the
    /// settings are left as they were and its error is returned.
    pub fn apply_options(&mut self, args: &Vec<Vec<u8>>) -> (res: Result<(), OptionError>)
        ensures
            match apply_all(old(self).settings(), texts(args@)) {
                Ok(t) => res is Ok && final(self).settings() == t,
                Err(e) => res == Err::<(), OptionError>(e) && final(self).settings() == old(self).settings(),
            },
            final(self).image == old(self).image,
            final(self).name == old(self).name,
            final(self).use_thumbhash == old(self).use_thumbhash,
            final(self).output_cli == old(self).output_cli,
    {
        let ghost all = texts(args@);
        let mut s = Settings {
            resolutions: copy_resolutions(&self.resolutions),
            output_directory: copy_range(&self.output_directory, 0, self.output_directory.len()),
            webp_quality: self.webp_quality,
            webp_method: self.webp_method,
            avif_quality: self.avif_quality,
            avif_speed: self.avif_speed,
            use_webp: self.use_webp,
            use_avif: self.use_avif,
        };
        assert(self.output_directory@.subrange(0, self.output_directory@.len() as int) =~= self.output_directory@);
        let mut i: usize = 0;
        assert(all.skip(0) =~= all);
        while i < args.len()
            invariant
                i <= args.len(),
                all == texts(args@),
                apply_all(old(self).settings(), all) == apply_all(s@, all.skip(i as int)),
                *self == *old(self),
            decreases args.len() - i,
        {
            let ghost rest = all.skip(i as int);
            assert(rest[0] == args@[i as int]@);
            assert(rest.drop_first() =~= all.skip(i + 1));
            match apply_one(&mut s, &args[i]) {
                Ok(()) => {},
                Err(e) => {
                    return Err(e);
                },
            }
            i = i + 1;
        }
        assert(all.skip(i as int).len() == 0);
        self.resolutions = s.resolutions;
        self.output_directory = s.output_directory;
        self.webp_quality = s.webp_quality;
        self.webp_method = s.webp_method;
        self.avif_quality = s.avif_quality;
        self.avif_speed = s.avif_speed;
        self.use_webp = s.use_webp;
        self.use_avif = s.use_avif;
        Ok(())
    }
}

/// All of `rs` are at most 4000.
pub open spec fn within_limit(rs: Seq<u32>) -> bool {
    forall|i: int| 0 <= i < rs.len() ==> rs[i] <= 4000
}

proof fn lemma_read_resolutions(acc: Seq<u32>, v: Seq<u8>)
    requires
        within_limit(acc),
    ensures
        read_resolutions(acc, v) matches Ok(rs) ==> within_limit(rs) && rs.len() >= acc.len()
            && rs.take(acc.len() as int) == acc,
    decreases v.len(),
{
    let k = find(v, 44) as int;
    crate::number::lemma_parse_unsigned_bounds(v.take(k), u32::MAX as int);
    if let Ok(r) = parse_unsigned(v.take(k), u32::MAX as int) {
        if r <= 4000 {
            let next = acc.push(r as u32);
            assert(within_limit(next));
            if k < v.len() {
                lemma_find_bound(v, 44);
                lemma_read_resolutions(next, v.skip(k + 1));
                if let Ok(rs) = read_resolutions(next, v.skip(k + 1)) {
                    assert(rs.take(acc.len() as int) =~= next.take(next.len() - 1));
                    assert(rs.take(acc.len() as int) =~= acc);
                }
            } else {
                assert(next.take(acc.len() as int) =~= acc);
            }
        }
    }
}

proof fn lemma_find_bound(s: Seq<u8>, b: u8)
    ensures
        find(s, b) <= s.len(),
    decreases s.len(),
{
    if s.len() > 0 && s[0] != b {
        lemma_find_bound(s.drop_first(), b);
    }
}

/// Options only ever add resolutions, after the ones already chosen, and never
/// one over 4000: when every resolution chosen so far is at most 4000, so is every
/// resolution after the options, and the earlier ones come first.
pub proof fn law_resolutions_within_limit(s: SettingsView, args: Seq<Seq<u8>>)
    requires
        within_limit(s.resolutions),
    ensures
        apply_all(s, args) matches Ok(t) ==> within_limit(t.resolutions)
            && t.resolutions.len() >= s.resolutions.len()
            && t.resolutions.take(s.resolutions.len() as int) == s.resolutions,
    decreases args.len(),
{
    if args.len() > 0 {
        let arg = args[0];
        if let Ok(t) = apply_arg(s, arg) {
            assert(within_limit(t.resolutions) && t.resolutions.len() >= s.resolutions.len()
                && t.resolutions.take(s.resolutions.len() as int) == s.resolutions) by {
                lemma_read_resolutions(s.resolutions, option_value(arg));
                if t.resolutions == s.resolutions {
                    assert(s.resolutions.take(s.resolutions.len() as int) =~= s.resolutions);
                }
            }
            law_resolutions_within_limit(t, args.drop_first());
            if let Ok(u) = apply_all(t, args.drop_first()) {
                assert(u.resolutions.take(s.resolutions.len() as int)
                    =~= u.resolutions.take(t.resolutions.len() as int).take(s.resolutions.len() as int));
            }
        }
    }
}

proof fn lemma_apply_all_push(s: SettingsView, args: Seq<Seq<u8>>, x: Seq<u8>)
    ensures
        apply_all(s, args.push(x)) == match apply_all(s, args) {
            Ok(t) => apply_arg(t, x),
            Err(e) => Err(e),
        },
    decreases args.len(),
{
    let all = args.push(x);
    assert(all[0] == if args.len() == 0 { x } else { args[0] });
    if args.len() == 0 {
        assert(all.drop_first().len() == 0);
        if let Ok(t) = apply_arg(s, x) {
            assert(apply_all(t, all.drop_first()) == Ok::<SettingsView, OptionError>(t));
        }
    } else {
        assert(all.drop_first() =~= args.drop_first().push(x));
        if let Ok(t) = apply_arg(s, args[0]) {
            lemma_apply_all_push(t, args.drop_first(), x);
        }
    }
}

/// The parts of an option `flag=v` whose flag and value hold no `=`, and the
/// flags it is told apart from.
proof fn lemma_option_parts(flag: Seq<u8>, v: Seq<u8>)
    requires
        flag.len() >= 6,
        forall|i: int| 0 <= i < flag.len() ==> flag[i] != 61,
        forall|i: int| 0 <= i < v.len() ==> v[i] != 61,
    ensures
        ({
            let arg = flag + seq![61u8] + v;
            &&& arg != words::webp_flag()
            &&& arg != words::avif_flag()
            &&& find(arg, 61) < arg.len()
            &&& option_name(arg) == flag
            &&& option_value(arg) == v
        }),
        words::webp_quality_flag() =~= seq![45u8, 119, 101, 98, 112, 45, 113, 117, 97, 108, 105, 116, 121],
        words::webp_method_flag() =~= seq![45u8, 119, 101, 98, 112, 45, 109, 101, 116, 104, 111, 100],
        words::avif_quality_flag() =~= seq![45u8, 97, 118, 105, 102, 45, 113, 117, 97, 108, 105, 116, 121],
        words::avif_speed_flag() =~= seq![45u8, 97, 118, 105, 102, 45, 115, 112, 101, 101, 100],
{
    let arg = flag + seq![61u8] + v;
    assert(arg.len() != words::webp_flag().len());
    assert(arg.len() != words::avif_flag().len());
    assert forall|j: int| 0 <= j < flag.len() implies arg[j] != 61 by {
        assert(arg[j] == flag[j]);
    }
    lemma_find(arg, 61, flag.len() as int);
    assert(arg.take(flag.len() as int) =~= flag);
    assert(arg.skip(flag.len() as int + 1) =~= v);
    lemma_find(v, 61, v.len() as int);
    assert(v.take(v.len() as int) =~= v);
}

/// `-webp-quality=v`, after any options that went through, chooses WebP and sets
/// its quality to the number `v` reads as (a `u32`); nothing else changes.
pub proof fn law_webp_quality_option(s: SettingsView, args: Seq<Seq<u8>>, v: Seq<u8>, n: int)
    requires
        apply_all(s, args) is Ok,
        parse_unsigned(v, u32::MAX as int) == Ok::<int, IntError>(n),
    ensures
        apply_all(s, args.push(seq![45u8, 119, 101, 98, 112, 45, 113, 117, 97, 108, 105, 116, 121, 61] + v))
            == Ok::<SettingsView, OptionError>(
            SettingsView { use_webp: true, webp_quality: n as u32, ..apply_all(s, args)->Ok_0 }),
{
    let flag = seq![45u8, 119, 101, 98, 112, 45, 113, 117, 97, 108, 105, 116, 121];
    let arg = seq![45u8, 119, 101, 98, 112, 45, 113, 117, 97, 108, 105, 116, 121, 61] + v;
    assert(flag + seq![61u8] + v =~= arg);
    crate::number::lemma_number_has_no_equals(v, u32::MAX as int);
    lemma_option_parts(flag, v);
    lemma_apply_all_push(s, args, arg);
}

/// `-webp-method=v`, after any options that went through, chooses AVIF (as the
/// command does) and sets the WebP method to the number `v` reads as (an `i32`);
/// nothing else changes.
pub proof fn law_webp_method_option(s: SettingsView, args: Seq<Seq<u8>>, v: Seq<u8>, n: int)
    requires
        apply_all(s, args) is Ok,
        parse_i32_spec(v) == Ok::<int, IntError>(n),
    ensures
        apply_all(s, args.push(seq![45u8, 119, 101, 98, 112, 45, 109, 101, 116, 104, 111, 100, 61] + v))
            == Ok::<SettingsView, OptionError>(
            SettingsView { use_avif: true, webp_method: n as i32, ..apply_all(s, args)->Ok_0 }),
{
    let flag = seq![45u8, 119, 101, 98, 112, 45, 109, 101, 116, 104, 111, 100];
    let arg = seq![45u8, 119, 101, 98, 112, 45, 109, 101, 116, 104, 111, 100, 61] + v;
    assert(flag + seq![61u8] + v =~= arg);
    crate::number::lemma_number_has_no_equals(v, 0);
    lemma_option_parts(flag, v);
    assert(flag != words::webp_quality_flag()) by {
        assert(flag.len() != words::webp_quality_flag().len());
    }
    lemma_apply_all_push(s, args, arg);
}

/// `-avif-quality=v`, after any options that went through, chooses AVIF and sets
/// its quality to the number `v` reads as (a `u32`); nothing else changes.
pub proof fn law_avif_quality_option(s: SettingsView, args: Seq<Seq<u8>>, v: Seq<u8>, n: int)
    requires
        apply_all(s, args) is Ok,
        parse_unsigned(v, u32::MAX as int) == Ok::<int, IntError>(n),
    ensures
        apply_all(s, args.push(seq![45u8, 97, 118, 105, 102, 45, 113, 117, 97, 108, 105, 116, 121, 61] + v))
            == Ok::<SettingsView, OptionError>(
            SettingsView { use_avif: true, avif_quality: n as u32, ..apply_all(s, args)->Ok_0 }),
{
    let flag = seq![45u8, 97, 118, 105, 102, 45, 113, 117, 97, 108, 105, 116, 121];
    let arg = seq![45u8, 97, 118, 105, 102, 45, 113, 117, 97, 108, 105, 116, 121, 61] + v;
    assert(flag + seq![61u8] + v =~= arg);
    crate::number::lemma_number_has_no_equals(v, u32::MAX as int);
    lemma_option_parts(flag, v);
    assert(flag != words::webp_quality_flag()) by {
        assert(flag[1] != words::webp_quality_flag()[1]);
    }
    assert(flag != words::webp_method_flag()) by {
        assert(flag.len() != words::webp_method_flag().len());
    }
    lemma_apply_all_push(s, args, arg);
}

/// `-avif-speed=v`, after any options that went through, chooses AVIF and sets its
/// speed to the number `v` reads as (a `u8`); nothing else changes.
pub proof fn law_avif_speed_option(s: SettingsView, args: Seq<Seq<u8>>, v: Seq<u8>, n: int)
    requires
        apply_all(s, args) is Ok,
        parse_unsigned(v, u8::MAX as int) == Ok::<int, IntError>(n),
    ensures
        apply_all(s, args.push(seq![45u8, 97, 118, 105, 102, 45, 115, 112, 101, 101, 100, 61] + v))
            == Ok::<SettingsView, OptionError>(
            SettingsView { use_avif: true, avif_speed: n as u8, ..apply_all(s, args)->Ok_0 }),
{
    let flag = seq![45u8, 97, 118, 105, 102, 45, 115, 112, 101, 101, 100];
    let arg = seq![45u8, 97, 118, 105, 102, 45, 115, 112, 101, 101, 100, 61] + v;
    assert(flag + seq![61u8] + v =~= arg);
    crate::number::lemma_number_has_no_equals(v, u8::MAX as int);
    lemma_option_parts(flag, v);
    assert(flag != words::webp_quality_flag()) by {
        assert(flag.len() != words::webp_quality_flag().len());
    }
    assert(flag != words::webp_method_flag()) by {
        assert(flag[1] != words::webp_method_flag()[1]);
    }
    assert(flag != words::avif_quality_flag()) by {
        assert(flag.len() != words::avif_quality_flag().len());
    }
    lemma_apply_all_push(s, args, arg);
}

/// The text of a flag as `{}` prints it.
pub open spec fn flag_text(b: bool) -> Seq<u8> {
    if b { words::true_word() } else { words::false_word() }
}

/// The line printed before converting:
/// `Convertig: WEBP={} | AVIF={} | OUTPUT_CLI={}`.
pub open spec fn summary_spec(a: &ConverArgs) -> Seq<u8> {
    words::summary_head() + flag_text(a.use_webp) + words::summary_avif() + flag_text(a.use_avif)
        + words::summary_cli() + flag_text(a.output_cli)
}

/// `true` or `false`, as `{}` prints a flag.
pub open spec fn printed_flag(b: bool) -> Seq<u8> {
    if b { seq![116u8, 114u8, 117u8, 101u8] } else { seq![102u8, 97u8, 108u8, 115u8, 101u8] }
}

/// The line printed before converting reads `Convertig: WEBP=`, the WebP flag,
/// ` | AVIF=`, the AVIF flag, ` | OUTPUT_CLI=` and the output mode flag, each flag
/// printed as `true` or `false`.
pub proof fn law_summary_line(a: &ConverArgs)
    ensures
        summary_spec(a) == seq![67u8, 111, 110, 118, 101, 114, 116, 105, 103, 58, 32, 87, 69, 66, 80, 61]
            + printed_flag(a.use_webp) + seq![32u8, 124, 32, 65, 86, 73, 70, 61] + printed_flag(a.use_avif)
            + seq![32u8, 124, 32, 79, 85, 84, 80, 85, 84, 95, 67, 76, 73, 61] + printed_flag(a.output_cli),
{
    assert(words::summary_head() =~= seq![67u8, 111, 110, 118, 101, 114, 116, 105, 103, 58, 32, 87, 69, 66, 80, 61]);
    assert(words::summary_avif() =~= seq![32u8, 124, 32, 65, 86, 73, 70, 61]);
    assert(words::summary_cli() =~= seq![32u8, 124, 32, 79, 85, 84, 80, 85, 84, 95, 67, 76, 73, 61]);
    assert(flag_text(a.use_webp) =~= printed_flag(a.use_webp));
    assert(flag_text(a.use_avif) =~= printed_flag(a.use_avif));
    assert(flag_text(a.output_cli) =~= printed_flag(a.output_cli));
}

/// Two settings that choose the same formats print the same line exactly when they
/// have the same output mode: the last field follows the output mode alone.
pub proof fn law_summary_follows_output_mode(a1: &ConverArgs, a2: &ConverArgs)
    requires
        a1.use_webp == a2.use_webp,
        a1.use_avif == a2.use_avif,
    ensures
        (summary_spec(a1) == summary_spec(a2)) <==> (a1.output_cli == a2.output_cli),
{
    law_summary_line(a1);
    law_summary_line(a2);
    if a1.output_cli != a2.output_cli {
        assert(summary_spec(a1).len() != summary_spec(a2).len());
    }
}

fn flag_bytes(b: bool) -> (res: Vec<u8>)
    ensures
        res@ == flag_text(b),
{
    if b { words::true_word_bytes() } else { words::false_word_bytes() }
}

impl ConverArgs {
    /// The line printed before converting.
    pub fn summary(&self) -> (res: Vec<u8>)
        ensures
            res@ == summary_spec(self),
    {
        let mut m = words::summary_head_bytes();
        append_bytes(&mut m, &flag_bytes(self.use_webp));
        append_bytes(&mut m, &words::summary_avif_bytes());
        append_bytes(&mut m, &flag_bytes(self.use_avif));
        append_bytes(&mut m, &words::summary_cli_bytes());
        append_bytes(&mut m, &flag_bytes(self.output_cli));
        m
    }
}

} // verus!
