//! The conversion: for each planned size, the image is resized and encoded in the
//! chosen formats, and each encoding is written to a file or printed as a record.
//!
//! The conversion computes what is to be done as a list of actions, in order; the
//! caller performs them (printing, writing files) and stops at the first action
//! that ends the run.

use vstd::prelude::*;
use crate::b64::{b64_encode, encode_base64};
use crate::encode::{avif_encode, webp_encode, webp_takes, avif_request, webp_request, webp_config_ok, outcome_view, webp_may_give,
    avif_may_give, WEBP_MAX_WIDTH};
use crate::number::{decimal, push_decimal};
use crate::options::ConverArgs;
use crate::picture::{Picture, squeezed, overlaid, white, thumb_hash_facts, thumb_may_give, side_bound, resize_fits, pixel_at, outside_rect,
    resize_within, square_thumbnail, padded_thumbnail, hash_thumbnail};
use crate::text::{append_bytes, copy_range};
use crate::words;

verus! {

/// One encoding printed as a JSON record.
pub struct OutputCmd {
    pub image: Vec<u8>,
    pub name: Vec<u8>,
    pub resolution: u32,
    pub format: Vec<u8>,
    pub thumbhash: Vec<u8>,
}

#[verifier::ext_equal]
pub struct OutputView {
    pub image: Seq<u8>,
    pub name: Seq<u8>,
    pub resolution: u32,
    pub format: Seq<u8>,
    pub thumbhash: Seq<u8>,
}

impl View for OutputCmd {
    type V = OutputView;

    open spec fn view(&self) -> OutputView {
        OutputView {
            image: self.image@,
            name: self.name@,
            resolution: self.resolution,
            format: self.format@,
            thumbhash: self.thumbhash@,
        }
    }
}

/// One step of the run.
pub enum Action {
    /// Print the text as a line.
    Print(Vec<u8>),
    /// Print the record as a line of JSON.
    Emit(OutputCmd),
    /// Write `data` to the file at `path`. If that fails: panic when `fatal`, and
    /// otherwise print `Error saving image: ` and the error, and stop.
    Save { path: Vec<u8>, data: Vec<u8>, fatal: bool },
    /// Print the text as a line and stop.
    Stop(Vec<u8>),
    /// Panic with the text.
    Abort(Vec<u8>),
}

#[verifier::ext_equal]
pub enum ActionView {
    Print(Seq<u8>),
    Emit(OutputView),
    Save { path: Seq<u8>, data: Seq<u8>, fatal: bool },
    Stop(Seq<u8>),
    Abort(Seq<u8>),
}

impl View for Action {
    type V = ActionView;

    open spec fn view(&self) -> ActionView {
        match self {
            Action::Print(t) => ActionView::Print(t@),
            Action::Emit(o) => ActionView::Emit(o@),
            Action::Save { path, data, fatal } => ActionView::Save { path: path@, data: data@, fatal: *fatal },
            Action::Stop(t) => ActionView::Stop(t@),
            Action::Abort(t) => ActionView::Abort(t@),
        }
    }
}

/// The views of a list of actions.
pub open spec fn views(v: Seq<Action>) -> Seq<ActionView> {
    v.map_values(|x: Action| x@)
}

/// The run ends with the last of these actions.
pub open spec fn ended(s: Seq<ActionView>) -> bool {
    s.len() > 0 && (s.last() is Stop || s.last() is Abort)
}

/// What one planned size went through: the size asked for (`resolution`,
/// `width`, `height`), the size of the resized image, and what the WebP and AVIF
/// encoders returned (when they were called).
pub struct Round {
    pub resolution: u32,
    pub width: u32,
    pub height: u32,
    pub fitted_width: u32,
    pub fitted_height: u32,
    pub webp: Result<Seq<u8>, Seq<u8>>,
    pub avif: Result<Seq<u8>, Seq<u8>>,
}

/// `{name}-{resolution}i-{width}x{height}.{ext}`.
pub open spec fn file_name(name: Seq<u8>, resolution: u32, width: u32, height: u32, ext: Seq<u8>) -> Seq<u8> {
    name + seq![45u8] + decimal(resolution as nat) + seq![105u8, 45u8] + decimal(width as nat) + seq![120u8]
        + decimal(height as nat) + seq![46u8] + ext
}

/// `{head}{width}x{height}...`.
pub open spec fn size_note(head: Seq<u8>, width: u32, height: u32) -> Seq<u8> {
    head + decimal(width as nat) + seq![120u8] + decimal(height as nat) + words::ellipsis()
}

/// What is done with an encoding: printed as a record with its base64 text, the
/// file name, the resolution, the format and the thumbnail hash; or written to
/// `{directory}/{file name}` and announced.
pub open spec fn delivered(
    a: ConverArgs,
    resolution: u32,
    width: u32,
    height: u32,
    bytes: Seq<u8>,
    ext: Seq<u8>,
    saved_head: Seq<u8>,
    fatal: bool,
    th: Seq<u8>,
) -> Seq<ActionView> {
    let file = file_name(a.name@, resolution, width, height, ext);
    if a.output_cli {
        seq![ActionView::Emit(OutputView { image: b64_encode(bytes), name: file, resolution, format: ext, thumbhash: th })]
    } else {
        let path = a.output_directory@ + seq![47u8] + file;
        seq![ActionView::Save { path, data: bytes, fatal }, ActionView::Print(saved_head + path)]
    }
}

/// What follows a WebP encoding: a panic with the encoder's error, or the
/// delivery of the encoding (a failed write panics).
pub open spec fn webp_after(
    a: ConverArgs,
    resolution: u32,
    width: u32,
    height: u32,
    outcome: Result<Seq<u8>, Seq<u8>>,
    th: Seq<u8>,
) -> Seq<ActionView> {
    match outcome {
        Err(e) => seq![ActionView::Abort(words::unwrap_head() + e)],
        Ok(bytes) => delivered(a, resolution, width, height, bytes, words::webp_word(), words::saved_webp(), true, th),
    }
}

/// What follows an AVIF encoding: a stop with the encoder's error, or the
/// delivery of the encoding (a failed write stops).
pub open spec fn avif_after(
    a: ConverArgs,
    resolution: u32,
    width: u32,
    height: u32,
    outcome: Result<Seq<u8>, Seq<u8>>,
    th: Seq<u8>,
) -> Seq<ActionView> {
    match outcome {
        Err(e) => seq![ActionView::Stop(words::encode_error_head() + e)],
        Ok(bytes) => delivered(a, resolution, width, height, bytes, words::avif_word(), words::saved_avif(), false, th),
    }
}

/// The panic message for a resized image too wide for libwebp's row stride: what
/// libwebp answers for an image over 16383 pixels wide, the settings being
/// checked first.
pub open spec fn oversize_webp_error(a: ConverArgs) -> Seq<u8> {
    words::unwrap_head() + if webp_config_ok(a.webp_quality, a.webp_method, 0, 1) {
        words::bad_dimension()
    } else {
        words::invalid_configuration()
    }
}

/// The WebP part of a round: a note, then a panic when the image is not 8-bit RGB
/// or RGBA or the resized image is wider than `WEBP_MAX_WIDTH`, and otherwise
/// what follows the encoding.
pub open spec fn webp_steps(a: ConverArgs, r: Round, th: Seq<u8>) -> Seq<ActionView> {
    let note = ActionView::Print(size_note(words::converting_webp(), r.width, r.height));
    if !a.image.webp_ready() {
        seq![note, ActionView::Abort(words::unwrap_head() + words::unimplemented_quoted())]
    } else if r.fitted_width > WEBP_MAX_WIDTH {
        seq![note, ActionView::Abort(oversize_webp_error(a))]
    } else {
        seq![note] + webp_after(a, r.resolution, r.width, r.height, r.webp, th)
    }
}

/// The AVIF part of a round: a note, then a panic when the resized image has no
/// columns or the quality or speed is out of range, and otherwise what follows the
/// encoding.
pub open spec fn avif_steps(a: ConverArgs, r: Round, th: Seq<u8>) -> Seq<ActionView> {
    let note = ActionView::Print(size_note(words::converting_avif(), r.width, r.height));
    if r.fitted_width == 0 {
        seq![note, ActionView::Abort(words::stride_head() + decimal(r.fitted_height as nat) + words::stride_tail())]
    } else if !(1 <= a.avif_quality && a.avif_quality <= 100) {
        seq![note, ActionView::Abort(words::quality_assert())]
    } else if !(1 <= a.avif_speed && a.avif_speed <= 10) {
        seq![note, ActionView::Abort(words::speed_assert())]
    } else {
        seq![note] + avif_after(a, r.resolution, r.width, r.height, r.avif, th)
    }
}

/// One round: WebP when chosen, then AVIF when chosen and the WebP part did not
/// end the run.
pub open spec fn round_steps(a: ConverArgs, r: Round, th: Seq<u8>) -> Seq<ActionView> {
    let w = if a.use_webp { webp_steps(a, r, th) } else { seq![] };
    if ended(w) {
        w
    } else {
        w + (if a.use_avif { avif_steps(a, r, th) } else { seq![] })
    }
}

/// The rounds in order, up to the first that ends the run.
pub open spec fn rounds_plan(a: ConverArgs, rs: Seq<Round>, th: Seq<u8>) -> Seq<ActionView>
    decreases rs.len(),
{
    if rs.len() == 0 {
        seq![]
    } else {
        let p = rounds_plan(a, rs.drop_last(), th);
        if ended(p) {
            p
        } else {
            p + round_steps(a, rs.last(), th)
        }
    }
}

/// The text given as the thumbnail hash: empty without a thumbnail, and otherwise
/// the base64 text of the ThumbHash.
pub open spec fn thumb_text(mode: u32, hash: Seq<u8>) -> Seq<u8> {
    if mode == 0 { seq![] } else { b64_encode(hash) }
}

/// The whole run: a stop when the thumbnail mode is unknown (3 or more), and
/// otherwise the rounds.
pub open spec fn conversion(a: ConverArgs, hash: Seq<u8>, rs: Seq<Round>) -> Seq<ActionView> {
    if a.use_thumbhash >= 3 {
        seq![ActionView::Stop(words::no_thumbnail())]
    } else {
        rounds_plan(a, rs, thumb_text(a.use_thumbhash, hash))
    }
}

/// The resized image of a round has the size `fit_within` gives: the planned size
/// when that is the image's own, and otherwise each side at least 1 and at most
/// the planned side (or 1 when that is 0).
pub open spec fn fitted_size(a: ConverArgs, r: Round) -> bool {
    let f = a.image.fit_within(r.width, r.height);
    let own = r.width == a.image.width && r.height == a.image.height;
    &&& r.fitted_width == f.0 && r.fitted_height == f.1
    &&& own ==> r.fitted_width == r.width && r.fitted_height == r.height
    &&& !own ==> 1 <= r.fitted_width <= side_bound(r.width) && 1 <= r.fitted_height <= side_bound(r.height)
}

/// The pixels of the thumbnail that is hashed: mode 1 squeezes the image to 100 by
/// 100; mode 2 resizes it to `padded` and lays it centred on a white 100 by 100
/// canvas.
pub open spec fn thumbnail_pixels(a: ConverArgs, padded: (u32, u32)) -> Seq<u8> {
    if a.use_thumbhash == 1 {
        squeezed(a.image.width, a.image.height, a.image.rgba@, 100, 100)
    } else {
        overlaid(100, 100, white(40000), padded.0, padded.1,
            squeezed(a.image.width, a.image.height, a.image.rgba@, padded.0, padded.1),
            ((100 - padded.0) / 2) as i64, ((100 - padded.1) / 2) as i64)
    }
}

/// The WebP encoder is called in a round: WebP is chosen, the image is 8-bit RGB
/// or RGBA, and the resized image is at most `WEBP_MAX_WIDTH` wide.
pub open spec fn webp_called(a: ConverArgs, r: Round) -> bool {
    a.use_webp && a.image.webp_ready() && r.fitted_width <= WEBP_MAX_WIDTH
}

/// The AVIF encoder is called in a round: AVIF is chosen, the WebP part (when
/// WebP is chosen) delivered its encoding, the resized image has columns, and the
/// quality and speed are in range.
pub open spec fn avif_called(a: ConverArgs, r: Round) -> bool {
    &&& a.use_avif
    &&& a.use_webp ==> webp_called(a, r) && r.webp is Ok
    &&& r.fitted_width > 0
    &&& 1 <= a.avif_quality <= 100
    &&& 1 <= a.avif_speed <= 10
}

/// What each encoder called in a round returned is a result it may give for what
/// `webp_request` and `avif_request` build from the settings and the resized
/// image: its RGBA bytes, lossy with compressed alpha, at the WebP quality and
/// method; its pixels row by row, at the AVIF quality and speed.
pub open spec fn encoded_as_asked(a: ConverArgs, r: Round) -> bool {
    let f = a.image.fit_within(r.width, r.height);
    &&& webp_called(a, r) ==> webp_may_give(f.2, r.fitted_width, r.fitted_height, 0, 1, a.webp_quality,
        a.webp_method, r.webp)
    &&& avif_called(a, r) ==> avif_may_give(
        Seq::new((r.fitted_width * r.fitted_height) as nat, |k: int| pixel_at(f.2, k)),
        r.fitted_width, r.fitted_height, a.avif_quality, a.avif_speed, r.avif)
}

/// The rounds follow the planned sizes, in order, each on the image resized to fit
/// its size, with encoders handed what was asked for, and stop early only when the
/// run ended; with a thumbnail, the hash is one ThumbHash may give for exactly the
/// thumbnail's pixels, and meets what every ThumbHash of them meets.
pub open spec fn follows(
    a: ConverArgs,
    dims: Seq<(u32, u32, u32)>,
    padded: (u32, u32),
    hash: Seq<u8>,
    rs: Seq<Round>,
) -> bool {
    &&& (a.use_thumbhash == 1 || a.use_thumbhash == 2) ==> thumb_may_give(100, 100, thumbnail_pixels(a, padded), hash)
        && thumb_hash_facts(100, 100, thumbnail_pixels(a, padded), hash)
    &&& rs.len() <= dims.len()
    &&& forall|i: int| 0 <= i < rs.len() ==> (#[trigger] rs[i]).resolution == dims[i].0 && rs[i].width == dims[i].1
        && rs[i].height == dims[i].2 && fitted_size(a, rs[i]) && encoded_as_asked(a, rs[i])
    &&& rs.len() < dims.len() ==> ended(conversion(a, hash, rs))
}

// ---------------------------------------------------------------------------

fn size_note_bytes(head: Vec<u8>, width: u32, height: u32) -> (res: Vec<u8>)
    ensures
        res@ == size_note(head@, width, height),
{
    let mut m = head;
    push_decimal(&mut m, width);
    m.push(120);
    push_decimal(&mut m, height);
    append_bytes(&mut m, &words::ellipsis_bytes());
    m
}

/// The file name of an encoding.
pub fn file_name_bytes(name: &[u8], resolution: u32, width: u32, height: u32, ext: &[u8]) -> (res: Vec<u8>)
    ensures
        res@ == file_name(name@, resolution, width, height, ext@),
{
    let mut m = copy_range(name, 0, name.len());
    assert(name@.subrange(0, name@.len() as int) =~= name@);
    m.push(45);
    push_decimal(&mut m, resolution);
    m.push(105);
    m.push(45);
    push_decimal(&mut m, width);
    m.push(120);
    push_decimal(&mut m, height);
    m.push(46);
    append_bytes(&mut m, ext);
    assert(m@ =~= file_name(name@, resolution, width, height, ext@));
    m
}

/// What is done with an encoding `bytes` of the image at the planned size
/// (`resolution`, `width`, `height`), as `delivered` says.
pub fn deliver(
    a: &ConverArgs,
    resolution: u32,
    width: u32,
    height: u32,
    bytes: Vec<u8>,
    ext: Vec<u8>,
    saved_head: Vec<u8>,
    fatal: bool,
    th: &Vec<u8>,
) -> (res: Vec<Action>)
    ensures
        views(res@) == delivered(*a, resolution, width, height, bytes@, ext@, saved_head@, fatal, th@),
{
    let file = file_name_bytes(&a.name, resolution, width, height, &ext);
    let mut res: Vec<Action> = Vec::new();
    if a.output_cli {
        let image = encode_base64(&bytes);
        let thumbhash = copy_range(th, 0, th.len());
        assert(th@.subrange(0, th@.len() as int) =~= th@);
        res.push(Action::Emit(OutputCmd { image, name: file, resolution, format: ext, thumbhash }));
    } else {
        let mut path = copy_range(&a.output_directory, 0, a.output_directory.len());
        assert(a.output_directory@.subrange(0, a.output_directory@.len() as int) =~= a.output_directory@);
        path.push(47);
        append_bytes(&mut path, &file);
        let mut note = saved_head;
        append_bytes(&mut note, &path);
        res.push(Action::Save { path, data: bytes, fatal });
        res.push(Action::Print(note));
    }
    assert(views(res@) =~~= delivered(*a, resolution, width, height, bytes@, ext@, saved_head@, fatal, th@));
    res
}

proof fn lemma_views_append(x: Seq<Action>, y: Seq<Action>)
    ensures
        views(x + y) == views(x) + views(y),
{
    assert(views(x + y) =~= views(x) + views(y));
}

fn append_actions(acc: &mut Vec<Action>, more: Vec<Action>)
    ensures
        views(final(acc)@) == views(old(acc)@) + views(more@),
{
    let mut more = more;
    let ghost added = more@;
    acc.append(&mut more);
    proof {
        lemma_views_append(old(acc)@, added);
    }
}

/// What follows a WebP encoding that returned `outcome`.
pub fn webp_delivery(
    a: &ConverArgs,
    resolution: u32,
    width: u32,
    height: u32,
    outcome: Result<Vec<u8>, Vec<u8>>,
    th: &Vec<u8>,
) -> (res: Vec<Action>)
    ensures
        views(res@) == webp_after(*a, resolution, width, height, outcome_view(outcome), th@),
{
    match outcome {
        Err(e) => {
            let mut m = words::unwrap_head_bytes();
            append_bytes(&mut m, &e);
            let mut res: Vec<Action> = Vec::new();
            res.push(Action::Abort(m));
            assert(views(res@) =~~= webp_after(*a, resolution, width, height, Err(e@), th@));
            res
        },
        Ok(bytes) => deliver(a, resolution, width, height, bytes, words::webp_word_bytes(), words::saved_webp_bytes(), true, th),
    }
}

/// What follows an AVIF encoding that returned `outcome`.
pub fn avif_delivery(
    a: &ConverArgs,
    resolution: u32,
    width: u32,
    height: u32,
    outcome: Result<Vec<u8>, Vec<u8>>,
    th: &Vec<u8>,
) -> (res: Vec<Action>)
    ensures
        views(res@) == avif_after(*a, resolution, width, height, outcome_view(outcome), th@),
{
    match outcome {
        Err(e) => {
            let mut m = words::encode_error_head_bytes();
            append_bytes(&mut m, &e);
            let mut res: Vec<Action> = Vec::new();
            res.push(Action::Stop(m));
            assert(views(res@) =~~= avif_after(*a, resolution, width, height, Err(e@), th@));
            res
        },
        Ok(bytes) => deliver(a, resolution, width, height, bytes, words::avif_word_bytes(), words::saved_avif_bytes(), false, th),
    }
}

/// The WebP part of a round on the resized image `resized`.
fn webp_round(a: &ConverArgs, resolution: u32, width: u32, height: u32, resized: &Picture, th: &Vec<u8>)
    -> (out: (Vec<Action>, Ghost<Result<Seq<u8>, Seq<u8>>>))
    requires
        resized.wf(),
        resized.layout == a.image.layout,
    ensures
        forall|r: Round| r.resolution == resolution && r.width == width && r.height == height && r.webp == out.1@
            && r.fitted_width == resized.width && r.fitted_height == resized.height
            ==> views(out.0@) == webp_steps(*a, r, th@),
        a.image.webp_ready() && resized.width <= WEBP_MAX_WIDTH ==> webp_may_give(resized.rgba@, resized.width,
            resized.height, 0, 1, a.webp_quality, a.webp_method, out.1@),
        ended(views(out.0@)) <==> !(a.image.webp_ready() && resized.width <= WEBP_MAX_WIDTH && out.1@ is Ok),
{
    let mut steps: Vec<Action> = Vec::new();
    steps.push(Action::Print(size_note_bytes(words::converting_webp_bytes(), width, height)));
    let ghost note = views(steps@);
    if let Err(e) = webp_takes(resized.layout) {
        let mut m = words::unwrap_head_bytes();
        append_bytes(&mut m, &e);
        steps.push(Action::Abort(m));
        assert forall|r: Round| r.resolution == resolution && r.width == width && r.height == height
            implies views(steps@) == webp_steps(*a, r, th@) by {
            assert(views(steps@) =~~= webp_steps(*a, r, th@));
        }
        return (steps, Ghost(Err(seq![])));
    }
    if resized.width > WEBP_MAX_WIDTH {
        let mut m = words::unwrap_head_bytes();
        if a.webp_quality <= 100 && 0 <= a.webp_method && a.webp_method <= 6 {
            append_bytes(&mut m, &words::bad_dimension_bytes());
        } else {
            append_bytes(&mut m, &words::invalid_configuration_bytes());
        }
        steps.push(Action::Abort(m));
        assert forall|r: Round| r.resolution == resolution && r.width == width && r.height == height
            && r.fitted_width == resized.width && r.fitted_height == resized.height
            implies views(steps@) == webp_steps(*a, r, th@) by {
            assert(views(steps@) =~~= webp_steps(*a, r, th@));
        }
        return (steps, Ghost(Err(seq![])));
    }
    let request = webp_request(a, resized);
    let out = webp_encode(&request);
    let ghost outcome = outcome_view(out);
    let more = webp_delivery(a, resolution, width, height, out, th);
    let ghost after = views(more@);
    append_actions(&mut steps, more);
    assert(note =~~= seq![ActionView::Print(size_note(words::converting_webp(), width, height))]);
    proof {
        assert(after.len() > 0);
        assert(views(steps@).last() == after.last());
    }
    (steps, Ghost(outcome))
}

/// The AVIF part of a round on the resized image `resized`.
fn avif_round(a: &ConverArgs, resolution: u32, width: u32, height: u32, resized: &Picture, th: &Vec<u8>)
    -> (out: (Vec<Action>, Ghost<Result<Seq<u8>, Seq<u8>>>))
    requires
        resized.wf(),
    ensures
        forall|r: Round| r.resolution == resolution && r.width == width && r.height == height && r.avif == out.1@
            && r.fitted_width == resized.width && r.fitted_height == resized.height
            ==> views(out.0@) == avif_steps(*a, r, th@),
        resized.width > 0 && 1 <= a.avif_quality <= 100 && 1 <= a.avif_speed <= 10 ==> avif_may_give(
            Seq::new((resized.width * resized.height) as nat, |k: int| pixel_at(resized.rgba@, k)),
            resized.width, resized.height, a.avif_quality, a.avif_speed, out.1@),
{
    let mut steps: Vec<Action> = Vec::new();
    steps.push(Action::Print(size_note_bytes(words::converting_avif_bytes(), width, height)));
    let ghost note = views(steps@);
    if resized.width == 0 {
        let mut m = words::stride_head_bytes();
        push_decimal(&mut m, resized.height);
        append_bytes(&mut m, &words::stride_tail_bytes());
        steps.push(Action::Abort(m));
        assert forall|r: Round| r.resolution == resolution && r.width == width && r.height == height
            && r.fitted_width == resized.width && r.fitted_height == resized.height
            implies views(steps@) == avif_steps(*a, r, th@) by {
            assert(views(steps@) =~~= avif_steps(*a, r, th@));
        }
        return (steps, Ghost(Err(seq![])));
    }
    if !(1 <= a.avif_quality && a.avif_quality <= 100) {
        steps.push(Action::Abort(words::quality_assert_bytes()));
        assert forall|r: Round| r.resolution == resolution && r.width == width && r.height == height
            && r.fitted_width == resized.width && r.fitted_height == resized.height
            implies views(steps@) == avif_steps(*a, r, th@) by {
            assert(views(steps@) =~~= avif_steps(*a, r, th@));
        }
        return (steps, Ghost(Err(seq![])));
    }
    if !(1 <= a.avif_speed && a.avif_speed <= 10) {
        steps.push(Action::Abort(words::speed_assert_bytes()));
        assert forall|r: Round| r.resolution == resolution && r.width == width && r.height == height
            && r.fitted_width == resized.width && r.fitted_height == resized.height
            implies views(steps@) == avif_steps(*a, r, th@) by {
            assert(views(steps@) =~~= avif_steps(*a, r, th@));
        }
        return (steps, Ghost(Err(seq![])));
    }
    let request = avif_request(a, resized);
    assert(request.pixels@ =~= Seq::new((resized.width * resized.height) as nat,
        |k: int| pixel_at(resized.rgba@, k)));
    let out = avif_encode(&request);
    let ghost outcome = outcome_view(out);
    let more = avif_delivery(a, resolution, width, height, out, th);
    append_actions(&mut steps, more);
    assert(note =~~= seq![ActionView::Print(size_note(words::converting_avif(), width, height))]);
    (steps, Ghost(outcome))
}

fn ends_run(steps: &Vec<Action>) -> (res: bool)
    ensures
        res == ended(views(steps@)),
{
    if steps.len() == 0 {
        return false;
    }
    let last = &steps[steps.len() - 1];
    match last {
        Action::Stop(_) => true,
        Action::Abort(_) => true,
        _ => false,
    }
}

/// One round: the image resized to fit in `width` by `height`, then its WebP and
/// AVIF parts.
fn one_round(a: &ConverArgs, resolution: u32, width: u32, height: u32, th: &Vec<u8>) -> (out: (Vec<Action>, Ghost<Round>))
    requires
        a.image.wf(),
        resize_fits(a.image.width, width, height),
    ensures
        out.1@.resolution == resolution,
        out.1@.width == width,
        out.1@.height == height,
        fitted_size(*a, out.1@),
        encoded_as_asked(*a, out.1@),
        views(out.0@) == round_steps(*a, out.1@, th@),
{
    let resized = resize_within(&a.image, width, height);
    let mut steps: Vec<Action> = Vec::new();
    let ghost mut webp_out: Result<Seq<u8>, Seq<u8>> = Err(seq![]);
    let ghost mut avif_out: Result<Seq<u8>, Seq<u8>> = Err(seq![]);
    if a.use_webp {
        let (more, Ghost(o)) = webp_round(a, resolution, width, height, &resized, th);
        let ghost part = views(more@);
        proof {
            webp_out = o;
        }
        append_actions(&mut steps, more);
        assert(views(steps@) =~= part);
    }
    let ghost after_webp = views(steps@);
    let stop_here = ends_run(&steps);
    let ghost mut avif_part: Seq<ActionView> = seq![];
    if !stop_here && a.use_avif {
        let (more, Ghost(o)) = avif_round(a, resolution, width, height, &resized, th);
        proof {
            avif_out = o;
            avif_part = views(more@);
        }
        append_actions(&mut steps, more);
    }
    let ghost r = Round {
        resolution,
        width,
        height,
        fitted_width: resized.width,
        fitted_height: resized.height,
        webp: webp_out,
        avif: avif_out,
    };
    proof {
        if a.use_webp {
            assert(after_webp == webp_steps(*a, r, th@));
        } else {
            assert(after_webp =~= Seq::<ActionView>::empty());
        }
        if !stop_here && a.use_avif {
            assert(avif_part == avif_steps(*a, r, th@));
        } else if !stop_here {
            assert(views(steps@) =~= after_webp + Seq::<ActionView>::empty());
        }
    }
    (steps, Ghost(r))
}

/// The thumbnail of a conversion: none in mode 0 (or an unknown mode); in mode 1
/// the image squeezed to 100 by 100; in mode 2 the image resized to `padded` and
/// centred on a white 100 by 100 canvas.
pub fn thumbnail_of(a: &ConverArgs, padded: (u32, u32)) -> (res: Option<Picture>)
    requires
        a.image.wf(),
        a.use_thumbhash == 1 ==> resize_fits(a.image.width, 100, 100),
        a.use_thumbhash == 2 ==> padded.0 <= 100 && padded.1 <= 100 && resize_fits(a.image.width, padded.0, padded.1),
    ensures
        (a.use_thumbhash == 1 || a.use_thumbhash == 2) ==> (res matches Some(p) && p.width == 100 && p.height == 100
            && p.wf() && p.rgba@ == thumbnail_pixels(*a, padded)),
        a.use_thumbhash == 2 ==> (res matches Some(p) && forall|i: int| 0 <= i < 40000 && outside_rect(i / 4 % 100,
            i / 4 / 100, (100 - padded.0) / 2, (100 - padded.1) / 2, padded.0 as int, padded.1 as int)
            ==> #[trigger] p.rgba@[i] == 255),
        !(a.use_thumbhash == 1 || a.use_thumbhash == 2) ==> res is None,
{
    if a.use_thumbhash == 1 {
        Some(square_thumbnail(&a.image))
    } else if a.use_thumbhash == 2 {
        Some(padded_thumbnail(&a.image, padded.0, padded.1))
    } else {
        None
    }
}

/// The run: the thumbnail hash (see `thumbnail_of`; none in mode 0), then one
/// round for each planned size `(resolution, width, height)` of `dims`, in order,
/// up to the first action that ends the run. The planned sizes are those of the
/// resolutions of the settings, in their order. An image of 16 bits per sample is
/// resized from its 16-bit samples; one of floating-point samples is resized in
/// its 8-bit RGBA form.
///
/// The actions are those of `conversion` for some rounds that follow `dims`: each
/// on the image resized as `fit_within` gives, each encoder handed what
/// `webp_request` and `avif_request` build for it and returning a result it may
/// give for that request (`encoded_as_asked`), and what follows each result as
/// `webp_delivery` and `avif_delivery` say; and for some hash that ThumbHash may
/// give for exactly the thumbnail's pixels (`thumbnail_pixels`). The encoded bytes
/// and the ThumbHash values depend on the machine and are not described here.
pub fn convert_image(a: &ConverArgs, dims: &Vec<(u32, u32, u32)>, padded: (u32, u32)) -> (actions: Vec<Action>)
    requires
        a.image.wf(),
        a.use_thumbhash == 1 ==> resize_fits(a.image.width, 100, 100),
        a.use_thumbhash == 2 ==> padded.0 <= 100 && padded.1 <= 100 && resize_fits(a.image.width, padded.0, padded.1),
        forall|i: int| 0 <= i < dims@.len() ==> resize_fits(a.image.width, #[trigger] dims@[i].1, dims@[i].2),
        dims@.len() == a.resolutions@.len(),
        forall|i: int| 0 <= i < dims@.len() ==> (#[trigger] dims@[i]).0 == a.resolutions@[i],
    ensures
        exists|hash: Seq<u8>, rs: Seq<Round>|
            #[trigger] follows(*a, dims@, padded, hash, rs) && views(actions@) == conversion(*a, hash, rs),
{
    if a.use_thumbhash >= 3 {
        let mut actions: Vec<Action> = Vec::new();
        actions.push(Action::Stop(words::no_thumbnail_bytes()));
        let ghost rs: Seq<Round> = seq![];
        assert(views(actions@) =~~= conversion(*a, seq![], rs));
        assert(follows(*a, dims@, padded, seq![], rs));
        return actions;
    }
    let hash: Vec<u8> = match thumbnail_of(a, padded) {
        Some(thumb) => hash_thumbnail(&thumb),
        None => Vec::new(),
    };
    let th: Vec<u8> = if a.use_thumbhash == 0 { Vec::new() } else { encode_base64(&hash) };
    assert(th@ == thumb_text(a.use_thumbhash, hash@));
    let mut actions: Vec<Action> = Vec::new();
    let ghost mut rs: Seq<Round> = seq![];
    let mut i: usize = 0;
    while i < dims.len()
        invariant
            a.image.wf(),
            a.use_thumbhash < 3,
            th@ == thumb_text(a.use_thumbhash, hash@),
            (a.use_thumbhash == 1 || a.use_thumbhash == 2) ==> thumb_may_give(100, 100, thumbnail_pixels(*a, padded), hash@)
                && thumb_hash_facts(100, 100, thumbnail_pixels(*a, padded), hash@),
            forall|k: int| 0 <= k < dims@.len() ==> resize_fits(a.image.width, #[trigger] dims@[k].1, dims@[k].2),
            i <= dims.len(),
            rs.len() == i,
            forall|k: int| 0 <= k < rs.len() ==> (#[trigger] rs[k]).resolution == dims@[k].0 && rs[k].width == dims@[k].1
                && rs[k].height == dims@[k].2 && fitted_size(*a, rs[k]) && encoded_as_asked(*a, rs[k]),
            views(actions@) == rounds_plan(*a, rs, th@),
            !ended(views(actions@)),
        decreases dims.len() - i,
    {
        let (resolution, width, height) = dims[i];
        let (steps, Ghost(r)) = one_round(a, resolution, width, height, &th);
        let ghost before = rs;
        proof {
            rs = rs.push(r);
            assert(rs.drop_last() =~= before);
        }
        append_actions(&mut actions, steps);
        i = i + 1;
        if ends_run(&actions) {
            assert(follows(*a, dims@, padded, hash@, rs));
            return actions;
        }
    }
    assert(follows(*a, dims@, padded, hash@, rs));
    actions
}

// ---------------------------------------------------------------------------
// What a conversion delivers apart from the encoded bytes does not depend on the
// pixels of the image.

/// The action ends the run.
pub open spec fn stops(x: ActionView) -> bool {
    x is Stop || x is Abort
}

/// No action of `s` ends the run: every encoding and every write went through.
pub open spec fn runs_through(s: Seq<ActionView>) -> bool {
    forall|i: int| 0 <= i < s.len() ==> !stops(#[trigger] s[i])
}

/// The action with the encoded bytes left out: a record without its image and
/// thumbnail hash, a write without its data.
pub open spec fn bare(x: ActionView) -> ActionView {
    match x {
        ActionView::Emit(o) => ActionView::Emit(
            OutputView { image: seq![], name: o.name, resolution: o.resolution, format: o.format, thumbhash: seq![] },
        ),
        ActionView::Save { path, data, fatal } => ActionView::Save { path, data: seq![], fatal },
        _ => x,
    }
}

/// The actions with the encoded bytes left out.
pub open spec fn skeleton(s: Seq<ActionView>) -> Seq<ActionView> {
    s.map_values(|x: ActionView| bare(x))
}

/// The settings are the same but for the image.
pub open spec fn same_but_image(a1: ConverArgs, a2: ConverArgs) -> bool {
    &&& a1.resolutions@ == a2.resolutions@
    &&& a1.output_directory@ == a2.output_directory@
    &&& a1.name@ == a2.name@
    &&& a1.webp_quality == a2.webp_quality
    &&& a1.webp_method == a2.webp_method
    &&& a1.avif_quality == a2.avif_quality
    &&& a1.avif_speed == a2.avif_speed
    &&& a1.use_webp == a2.use_webp
    &&& a1.use_avif == a2.use_avif
    &&& a1.use_thumbhash == a2.use_thumbhash
    &&& a1.output_cli == a2.output_cli
}

/// Two rounds were asked for the same planned size.
pub open spec fn same_size(r1: Round, r2: Round) -> bool {
    r1.resolution == r2.resolution && r1.width == r2.width && r1.height == r2.height
}

proof fn lemma_skeleton_concat(x: Seq<ActionView>, y: Seq<ActionView>)
    ensures
        skeleton(x + y) == skeleton(x) + skeleton(y),
{
    assert(skeleton(x + y) =~= skeleton(x) + skeleton(y));
}

proof fn lemma_runs_through_parts(x: Seq<ActionView>, y: Seq<ActionView>)
    requires
        runs_through(x + y),
    ensures
        runs_through(x),
        runs_through(y),
{
    assert forall|i: int| 0 <= i < x.len() implies !stops(#[trigger] x[i]) by {
        assert((x + y)[i] == x[i]);
    }
    assert forall|i: int| 0 <= i < y.len() implies !stops(#[trigger] y[i]) by {
        assert((x + y)[x.len() + i] == y[i]);
    }
}

proof fn lemma_runs_through_not_ended(s: Seq<ActionView>)
    requires
        runs_through(s),
    ensures
        !ended(s),
{
    if s.len() > 0 {
        assert(!stops(s[s.len() - 1]));
    }
}

proof fn lemma_delivered_skeleton(
    a1: ConverArgs,
    a2: ConverArgs,
    resolution: u32,
    width: u32,
    height: u32,
    b1: Seq<u8>,
    b2: Seq<u8>,
    ext: Seq<u8>,
    head: Seq<u8>,
    fatal: bool,
    t1: Seq<u8>,
    t2: Seq<u8>,
)
    requires
        same_but_image(a1, a2),
    ensures
        skeleton(delivered(a1, resolution, width, height, b1, ext, head, fatal, t1))
            == skeleton(delivered(a2, resolution, width, height, b2, ext, head, fatal, t2)),
{
    let d1 = delivered(a1, resolution, width, height, b1, ext, head, fatal, t1);
    let d2 = delivered(a2, resolution, width, height, b2, ext, head, fatal, t2);
    assert(skeleton(d1) =~= skeleton(d2));
}

proof fn lemma_webp_skeleton(a1: ConverArgs, a2: ConverArgs, r1: Round, r2: Round, t1: Seq<u8>, t2: Seq<u8>)
    requires
        same_but_image(a1, a2),
        same_size(r1, r2),
        runs_through(webp_steps(a1, r1, t1)),
        runs_through(webp_steps(a2, r2, t2)),
    ensures
        skeleton(webp_steps(a1, r1, t1)) == skeleton(webp_steps(a2, r2, t2)),
{
    let s1 = webp_steps(a1, r1, t1);
    let s2 = webp_steps(a2, r2, t2);
    if !a1.image.webp_ready() || r1.fitted_width > WEBP_MAX_WIDTH || r1.webp is Err {
        assert(stops(s1[1]));
    }
    if !a2.image.webp_ready() || r2.fitted_width > WEBP_MAX_WIDTH || r2.webp is Err {
        assert(stops(s2[1]));
    }
    let note = seq![ActionView::Print(size_note(words::converting_webp(), r1.width, r1.height))];
    let d1 = delivered(a1, r1.resolution, r1.width, r1.height, r1.webp->Ok_0, words::webp_word(),
        words::saved_webp(), true, t1);
    let d2 = delivered(a2, r2.resolution, r2.width, r2.height, r2.webp->Ok_0, words::webp_word(),
        words::saved_webp(), true, t2);
    assert(s1 == note + d1);
    assert(s2 == note + d2);
    lemma_skeleton_concat(note, d1);
    lemma_skeleton_concat(note, d2);
    lemma_delivered_skeleton(a1, a2, r1.resolution, r1.width, r1.height, r1.webp->Ok_0, r2.webp->Ok_0,
        words::webp_word(), words::saved_webp(), true, t1, t2);
}

proof fn lemma_avif_skeleton(a1: ConverArgs, a2: ConverArgs, r1: Round, r2: Round, t1: Seq<u8>, t2: Seq<u8>)
    requires
        same_but_image(a1, a2),
        same_size(r1, r2),
        runs_through(avif_steps(a1, r1, t1)),
        runs_through(avif_steps(a2, r2, t2)),
    ensures
        skeleton(avif_steps(a1, r1, t1)) == skeleton(avif_steps(a2, r2, t2)),
{
    let s1 = avif_steps(a1, r1, t1);
    let s2 = avif_steps(a2, r2, t2);
    let ok = 1 <= a1.avif_quality <= 100 && 1 <= a1.avif_speed <= 10;
    if r1.fitted_width == 0 || !ok || r1.avif is Err {
        assert(stops(s1[1]));
    }
    if r2.fitted_width == 0 || !ok || r2.avif is Err {
        assert(stops(s2[1]));
    }
    let note = seq![ActionView::Print(size_note(words::converting_avif(), r1.width, r1.height))];
    let d1 = delivered(a1, r1.resolution, r1.width, r1.height, r1.avif->Ok_0, words::avif_word(),
        words::saved_avif(), false, t1);
    let d2 = delivered(a2, r2.resolution, r2.width, r2.height, r2.avif->Ok_0, words::avif_word(),
        words::saved_avif(), false, t2);
    assert(s1 == note + d1);
    assert(s2 == note + d2);
    lemma_skeleton_concat(note, d1);
    lemma_skeleton_concat(note, d2);
    lemma_delivered_skeleton(a1, a2, r1.resolution, r1.width, r1.height, r1.avif->Ok_0, r2.avif->Ok_0,
        words::avif_word(), words::saved_avif(), false, t1, t2);
}

proof fn lemma_round_skeleton(a1: ConverArgs, a2: ConverArgs, r1: Round, r2: Round, t1: Seq<u8>, t2: Seq<u8>)
    requires
        same_but_image(a1, a2),
        same_size(r1, r2),
        runs_through(round_steps(a1, r1, t1)),
        runs_through(round_steps(a2, r2, t2)),
    ensures
        skeleton(round_steps(a1, r1, t1)) == skeleton(round_steps(a2, r2, t2)),
{
    let w1 = if a1.use_webp { webp_steps(a1, r1, t1) } else { seq![] };
    let w2 = if a2.use_webp { webp_steps(a2, r2, t2) } else { seq![] };
    let v1 = if a1.use_avif { avif_steps(a1, r1, t1) } else { seq![] };
    let v2 = if a2.use_avif { avif_steps(a2, r2, t2) } else { seq![] };
    if ended(w1) {
        lemma_runs_through_not_ended(round_steps(a1, r1, t1));
    }
    if ended(w2) {
        lemma_runs_through_not_ended(round_steps(a2, r2, t2));
    }
    assert(round_steps(a1, r1, t1) == w1 + v1);
    assert(round_steps(a2, r2, t2) == w2 + v2);
    lemma_runs_through_parts(w1, v1);
    lemma_runs_through_parts(w2, v2);
    if a1.use_webp {
        lemma_webp_skeleton(a1, a2, r1, r2, t1, t2);
    } else {
        assert(skeleton(w1) =~= skeleton(w2));
    }
    if a1.use_avif {
        lemma_avif_skeleton(a1, a2, r1, r2, t1, t2);
    } else {
        assert(skeleton(v1) =~= skeleton(v2));
    }
    lemma_skeleton_concat(w1, v1);
    lemma_skeleton_concat(w2, v2);
}

proof fn lemma_plan_skeleton(a1: ConverArgs, a2: ConverArgs, rs1: Seq<Round>, rs2: Seq<Round>, t1: Seq<u8>, t2: Seq<u8>)
    requires
        same_but_image(a1, a2),
        rs1.len() == rs2.len(),
        forall|i: int| 0 <= i < rs1.len() ==> same_size(#[trigger] rs1[i], rs2[i]),
        runs_through(rounds_plan(a1, rs1, t1)),
        runs_through(rounds_plan(a2, rs2, t2)),
    ensures
        skeleton(rounds_plan(a1, rs1, t1)) == skeleton(rounds_plan(a2, rs2, t2)),
    decreases rs1.len(),
{
    if rs1.len() == 0 {
        assert(skeleton(rounds_plan(a1, rs1, t1)) =~= skeleton(rounds_plan(a2, rs2, t2)));
    } else {
        let p1 = rounds_plan(a1, rs1.drop_last(), t1);
        let p2 = rounds_plan(a2, rs2.drop_last(), t2);
        if ended(p1) {
            lemma_runs_through_not_ended(rounds_plan(a1, rs1, t1));
        }
        if ended(p2) {
            lemma_runs_through_not_ended(rounds_plan(a2, rs2, t2));
        }
        let q1 = round_steps(a1, rs1.last(), t1);
        let q2 = round_steps(a2, rs2.last(), t2);
        assert(rounds_plan(a1, rs1, t1) == p1 + q1);
        assert(rounds_plan(a2, rs2, t2) == p2 + q2);
        lemma_runs_through_parts(p1, q1);
        lemma_runs_through_parts(p2, q2);
        assert forall|i: int| 0 <= i < rs1.drop_last().len() implies same_size(
            #[trigger] rs1.drop_last()[i], rs2.drop_last()[i]) by {
            assert(same_size(rs1[i], rs2[i]));
        }
        lemma_plan_skeleton(a1, a2, rs1.drop_last(), rs2.drop_last(), t1, t2);
        assert(same_size(rs1[rs1.len() - 1], rs2[rs2.len() - 1]));
        lemma_round_skeleton(a1, a2, rs1.last(), rs2.last(), t1, t2);
        lemma_skeleton_concat(p1, q1);
        lemma_skeleton_concat(p2, q2);
    }
}

/// Two conversions whose settings differ only in the image, both run through
/// without a stop or a panic (every encoding and every write succeeded), and that
/// follow the same planned sizes, deliver in the same order the same records and
/// files apart from the encoded bytes and the thumbnail hash: the same file names,
/// resolutions, formats, paths and printed lines. The names come from the planned
/// sizes, the name and the settings, never from the pixels.
pub proof fn law_names_ignore_pixels(
    a1: ConverArgs,
    a2: ConverArgs,
    dims: Seq<(u32, u32, u32)>,
    padded: (u32, u32),
    hash1: Seq<u8>,
    rs1: Seq<Round>,
    hash2: Seq<u8>,
    rs2: Seq<Round>,
)
    requires
        same_but_image(a1, a2),
        follows(a1, dims, padded, hash1, rs1),
        follows(a2, dims, padded, hash2, rs2),
        runs_through(conversion(a1, hash1, rs1)),
        runs_through(conversion(a2, hash2, rs2)),
    ensures
        skeleton(conversion(a1, hash1, rs1)) == skeleton(conversion(a2, hash2, rs2)),
{
    if a1.use_thumbhash >= 3 {
        assert(stops(conversion(a1, hash1, rs1)[0]));
    } else {
        lemma_runs_through_not_ended(conversion(a1, hash1, rs1));
        lemma_runs_through_not_ended(conversion(a2, hash2, rs2));
        assert forall|i: int| 0 <= i < rs1.len() implies same_size(#[trigger] rs1[i], rs2[i]) by {
            assert(rs1[i].resolution == dims[i].0);
            assert(rs2[i].resolution == dims[i].0);
        }
        lemma_plan_skeleton(a1, a2, rs1, rs2, thumb_text(a1.use_thumbhash, hash1),
            thumb_text(a2.use_thumbhash, hash2));
    }
}

// ---------------------------------------------------------------------------
// When the AVIF part of a round panics, and when it delivers.

/// With AVIF chosen, an encoding that succeeded on a resized image with columns,
/// at a quality in `1..=100` and a speed in `1..=10`, is delivered, and nothing in
/// the AVIF part of the round ends the run: after the note it is printed as a
/// record named `{name}-{resolution}i-{width}x{height}.avif` holding the base64
/// text of the encoding, or written to that name in the output directory.
pub proof fn law_avif_in_range_is_delivered(a: ConverArgs, r: Round, th: Seq<u8>)
    requires
        r.fitted_width > 0,
        1 <= a.avif_quality <= 100,
        1 <= a.avif_speed <= 10,
        r.avif is Ok,
    ensures
        ({
            let steps = avif_steps(a, r, th);
            let name = a.name@ + seq![45u8] + decimal(r.resolution as nat) + seq![105u8, 45]
                + decimal(r.width as nat) + seq![120u8] + decimal(r.height as nat) + seq![46u8, 97, 118, 105, 102];
            &&& runs_through(steps)
            &&& a.output_cli ==> steps.len() == 2 && steps[1] == ActionView::Emit(OutputView {
                image: b64_encode(r.avif->Ok_0),
                name,
                resolution: r.resolution,
                format: seq![97u8, 118, 105, 102],
                thumbhash: th,
            })
            &&& !a.output_cli ==> steps.len() == 3 && steps[1] == ActionView::Save {
                path: a.output_directory@ + seq![47u8] + name,
                data: r.avif->Ok_0,
                fatal: false,
            }
        }),
{
    let steps = avif_steps(a, r, th);
    let ext = seq![46u8, 97, 118, 105, 102];
    assert(words::avif_word() =~= seq![97u8, 118, 105, 102]);
    let file = file_name(a.name@, r.resolution, r.width, r.height, words::avif_word());
    assert(file =~= a.name@ + seq![45u8] + decimal(r.resolution as nat) + seq![105u8, 45]
        + decimal(r.width as nat) + seq![120u8] + decimal(r.height as nat) + ext);
    assert forall|i: int| 0 <= i < steps.len() implies !stops(#[trigger] steps[i]) by {
        if i > 0 {
            assert(steps[i] == delivered(a, r.resolution, r.width, r.height, r.avif->Ok_0, words::avif_word(),
                words::saved_avif(), false, th)[i - 1]);
        }
    }
}

/// The AVIF quality assertion ends the run only for a quality of 0 or over 100:
/// with a quality in `1..=100`, no step of the AVIF part of a round is that panic.
pub proof fn law_avif_quality_panic_only_out_of_range(a: ConverArgs, r: Round, th: Seq<u8>)
    ensures
        avif_steps(a, r, th).contains(ActionView::Abort(words::quality_assert())) ==> a.avif_quality == 0
            || a.avif_quality > 100,
{
    let steps = avif_steps(a, r, th);
    let q = ActionView::Abort(words::quality_assert());
    if 1 <= a.avif_quality <= 100 {
        assert forall|i: int| 0 <= i < steps.len() implies steps[i] != q by {
            if i > 0 {
                if r.fitted_width == 0 {
                    let m = words::stride_head() + decimal(r.fitted_height as nat) + words::stride_tail();
                    assert(m[0] != words::quality_assert()[0]);
                } else if !(1 <= a.avif_speed <= 10) {
                    assert(words::speed_assert()[18] != words::quality_assert()[18]);
                } else if r.avif is Ok {
                    assert(steps[i] == delivered(a, r.resolution, r.width, r.height, r.avif->Ok_0,
                        words::avif_word(), words::saved_avif(), false, th)[i - 1]);
                }
            }
        }
    }
}

} // verus!
