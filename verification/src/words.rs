//! The fixed texts of the command: option names, file extensions and messages,
//! as UTF-8 bytes.

use vstd::prelude::*;

verus! {

/// `-image=`: the marker of an image given inline in base64.
pub open spec fn image_prefix() -> Seq<u8> {
    seq![45u8, 105u8, 109u8, 97u8, 103u8, 101u8, 61u8]
}

/// The bytes of [`image_prefix`].
pub fn image_prefix_bytes() -> (res: Vec<u8>)
    ensures
        res@ == image_prefix(),
{
    vec![45u8, 105u8, 109u8, 97u8, 103u8, 101u8, 61u8]
}

/// `-image-stdin`: the request to read the image from standard input.
pub open spec fn stdin_flag() -> Seq<u8> {
    seq![45u8, 105u8, 109u8, 97u8, 103u8, 101u8, 45u8, 115u8, 116u8, 100u8, 105u8, 110u8]
}

/// The bytes of [`stdin_flag`].
pub fn stdin_flag_bytes() -> (res: Vec<u8>)
    ensures
        res@ == stdin_flag(),
{
    vec![45u8, 105u8, 109u8, 97u8, 103u8, 101u8, 45u8, 115u8, 116u8, 100u8, 105u8, 110u8]
}

/// `-webp`: the request for WebP outputs.
pub open spec fn webp_flag() -> Seq<u8> {
    seq![45u8, 119u8, 101u8, 98u8, 112u8]
}

/// The bytes of [`webp_flag`].
pub fn webp_flag_bytes() -> (res: Vec<u8>)
    ensures
        res@ == webp_flag(),
{
    vec![45u8, 119u8, 101u8, 98u8, 112u8]
}

/// `-avif`: the request for AVIF outputs.
pub open spec fn avif_flag() -> Seq<u8> {
    seq![45u8, 97u8, 118u8, 105u8, 102u8]
}

/// The bytes of [`avif_flag`].
pub fn avif_flag_bytes() -> (res: Vec<u8>)
    ensures
        res@ == avif_flag(),
{
    vec![45u8, 97u8, 118u8, 105u8, 102u8]
}

/// `-webp-quality`: the WebP quality option.
pub open spec fn webp_quality_flag() -> Seq<u8> {
    seq![45u8, 119u8, 101u8, 98u8, 112u8, 45u8, 113u8, 117u8, 97u8, 108u8, 105u8, 116u8, 121u8]
}

/// The bytes of [`webp_quality_flag`].
pub fn webp_quality_flag_bytes() -> (res: Vec<u8>)
    ensures
        res@ == webp_quality_flag(),
{
    vec![45u8, 119u8, 101u8, 98u8, 112u8, 45u8, 113u8, 117u8, 97u8, 108u8, 105u8, 116u8, 121u8]
}

/// `-webp-method`: the WebP method option.
pub open spec fn webp_method_flag() -> Seq<u8> {
    seq![45u8, 119u8, 101u8, 98u8, 112u8, 45u8, 109u8, 101u8, 116u8, 104u8, 111u8, 100u8]
}

/// The bytes of [`webp_method_flag`].
pub fn webp_method_flag_bytes() -> (res: Vec<u8>)
    ensures
        res@ == webp_method_flag(),
{
    vec![45u8, 119u8, 101u8, 98u8, 112u8, 45u8, 109u8, 101u8, 116u8, 104u8, 111u8, 100u8]
}

/// `-avif-quality`: the AVIF quality option.
pub open spec fn avif_quality_flag() -> Seq<u8> {
    seq![45u8, 97u8, 118u8, 105u8, 102u8, 45u8, 113u8, 117u8, 97u8, 108u8, 105u8, 116u8, 121u8]
}

/// The bytes of [`avif_quality_flag`].
pub fn avif_quality_flag_bytes() -> (res: Vec<u8>)
    ensures
        res@ == avif_quality_flag(),
{
    vec![45u8, 97u8, 118u8, 105u8, 102u8, 45u8, 113u8, 117u8, 97u8, 108u8, 105u8, 116u8, 121u8]
}

/// `-avif-speed`: the AVIF speed option.
pub open spec fn avif_speed_flag() -> Seq<u8> {
    seq![45u8, 97u8, 118u8, 105u8, 102u8, 45u8, 115u8, 112u8, 101u8, 101u8, 100u8]
}

/// The bytes of [`avif_speed_flag`].
pub fn avif_speed_flag_bytes() -> (res: Vec<u8>)
    ensures
        res@ == avif_speed_flag(),
{
    vec![45u8, 97u8, 118u8, 105u8, 102u8, 45u8, 115u8, 112u8, 101u8, 101u8, 100u8]
}

/// `-output`: the output directory option.
pub open spec fn output_flag() -> Seq<u8> {
    seq![45u8, 111u8, 117u8, 116u8, 112u8, 117u8, 116u8]
}

/// The bytes of [`output_flag`].
pub fn output_flag_bytes() -> (res: Vec<u8>)
    ensures
        res@ == output_flag(),
{
    vec![45u8, 111u8, 117u8, 116u8, 112u8, 117u8, 116u8]
}

/// `-resolutions`: the resolutions option.
pub open spec fn resolutions_flag() -> Seq<u8> {
    seq![45u8, 114u8, 101u8, 115u8, 111u8, 108u8, 117u8, 116u8, 105u8, 111u8, 110u8, 115u8]
}

/// The bytes of [`resolutions_flag`].
pub fn resolutions_flag_bytes() -> (res: Vec<u8>)
    ensures
        res@ == resolutions_flag(),
{
    vec![45u8, 114u8, 101u8, 115u8, 111u8, 108u8, 117u8, 116u8, 105u8, 111u8, 110u8, 115u8]
}

/// `image`: the name given to an image read from memory.
pub open spec fn default_name() -> Seq<u8> {
    seq![105u8, 109u8, 97u8, 103u8, 101u8]
}

/// The bytes of [`default_name`].
pub fn default_name_bytes() -> (res: Vec<u8>)
    ensures
        res@ == default_name(),
{
    vec![105u8, 109u8, 97u8, 103u8, 101u8]
}

/// `webp`: the WebP extension and format name.
pub open spec fn webp_word() -> Seq<u8> {
    seq![119u8, 101u8, 98u8, 112u8]
}

/// The bytes of [`webp_word`].
pub fn webp_word_bytes() -> (res: Vec<u8>)
    ensures
        res@ == webp_word(),
{
    vec![119u8, 101u8, 98u8, 112u8]
}

/// `avif`: the AVIF extension and format name.
pub open spec fn avif_word() -> Seq<u8> {
    seq![97u8, 118u8, 105u8, 102u8]
}

/// The bytes of [`avif_word`].
pub fn avif_word_bytes() -> (res: Vec<u8>)
    ensures
        res@ == avif_word(),
{
    vec![97u8, 118u8, 105u8, 102u8]
}

/// `true`: `true` as printed.
pub open spec fn true_word() -> Seq<u8> {
    seq![116u8, 114u8, 117u8, 101u8]
}

/// The bytes of [`true_word`].
pub fn true_word_bytes() -> (res: Vec<u8>)
    ensures
        res@ == true_word(),
{
    vec![116u8, 114u8, 117u8, 101u8]
}

/// `false`: `false` as printed.
pub open spec fn false_word() -> Seq<u8> {
    seq![102u8, 97u8, 108u8, 115u8, 101u8]
}

/// The bytes of [`false_word`].
pub fn false_word_bytes() -> (res: Vec<u8>)
    ensures
        res@ == false_word(),
{
    vec![102u8, 97u8, 108u8, 115u8, 101u8]
}

/// `Convertig: WEBP=`: the start of the summary line.
pub open spec fn summary_head() -> Seq<u8> {
    seq![67u8, 111u8, 110u8, 118u8, 101u8, 114u8, 116u8, 105u8, 103u8, 58u8, 32u8, 87u8, 69u8, 66u8, 80u8, 61u8]
}

/// The bytes of [`summary_head`].
pub fn summary_head_bytes() -> (res: Vec<u8>)
    ensures
        res@ == summary_head(),
{
    vec![67u8, 111u8, 110u8, 118u8, 101u8, 114u8, 116u8, 105u8, 103u8, 58u8, 32u8, 87u8, 69u8, 66u8, 80u8, 61u8]
}

/// ` | AVIF=`: the AVIF part of the summary line.
pub open spec fn summary_avif() -> Seq<u8> {
    seq![32u8, 124u8, 32u8, 65u8, 86u8, 73u8, 70u8, 61u8]
}

/// The bytes of [`summary_avif`].
pub fn summary_avif_bytes() -> (res: Vec<u8>)
    ensures
        res@ == summary_avif(),
{
    vec![32u8, 124u8, 32u8, 65u8, 86u8, 73u8, 70u8, 61u8]
}

/// ` | OUTPUT_CLI=`: the output mode part of the summary line.
pub open spec fn summary_cli() -> Seq<u8> {
    seq![32u8, 124u8, 32u8, 79u8, 85u8, 84u8, 80u8, 85u8, 84u8, 95u8, 67u8, 76u8, 73u8, 61u8]
}

/// The bytes of [`summary_cli`].
pub fn summary_cli_bytes() -> (res: Vec<u8>)
    ensures
        res@ == summary_cli(),
{
    vec![32u8, 124u8, 32u8, 79u8, 85u8, 84u8, 80u8, 85u8, 84u8, 95u8, 67u8, 76u8, 73u8, 61u8]
}

/// `Error: Invalid resolution format: `: the start of the message for an unreadable resolution.
pub open spec fn bad_format_head() -> Seq<u8> {
    seq![69u8, 114u8, 114u8, 111u8, 114u8, 58u8, 32u8, 73u8, 110u8, 118u8, 97u8, 108u8, 105u8, 100u8, 32u8, 114u8, 101u8, 115u8, 111u8, 108u8, 117u8, 116u8, 105u8, 111u8, 110u8, 32u8, 102u8, 111u8, 114u8, 109u8, 97u8, 116u8, 58u8, 32u8]
}

/// The bytes of [`bad_format_head`].
pub fn bad_format_head_bytes() -> (res: Vec<u8>)
    ensures
        res@ == bad_format_head(),
{
    vec![69u8, 114u8, 114u8, 111u8, 114u8, 58u8, 32u8, 73u8, 110u8, 118u8, 97u8, 108u8, 105u8, 100u8, 32u8, 114u8, 101u8, 115u8, 111u8, 108u8, 117u8, 116u8, 105u8, 111u8, 110u8, 32u8, 102u8, 111u8, 114u8, 109u8, 97u8, 116u8, 58u8, 32u8]
}

/// `Error: Invalid resolution: `: the start of the message for a resolution over the limit.
pub open spec fn too_big_head() -> Seq<u8> {
    seq![69u8, 114u8, 114u8, 111u8, 114u8, 58u8, 32u8, 73u8, 110u8, 118u8, 97u8, 108u8, 105u8, 100u8, 32u8, 114u8, 101u8, 115u8, 111u8, 108u8, 117u8, 116u8, 105u8, 111u8, 110u8, 58u8, 32u8]
}

/// The bytes of [`too_big_head`].
pub fn too_big_head_bytes() -> (res: Vec<u8>)
    ensures
        res@ == too_big_head(),
{
    vec![69u8, 114u8, 114u8, 111u8, 114u8, 58u8, 32u8, 73u8, 110u8, 118u8, 97u8, 108u8, 105u8, 100u8, 32u8, 114u8, 101u8, 115u8, 111u8, 108u8, 117u8, 116u8, 105u8, 111u8, 110u8, 58u8, 32u8]
}

/// ` | Too Big (>16 mpx)`: the end of the message for a resolution over the limit.
pub open spec fn too_big_tail() -> Seq<u8> {
    seq![32u8, 124u8, 32u8, 84u8, 111u8, 111u8, 32u8, 66u8, 105u8, 103u8, 32u8, 40u8, 62u8, 49u8, 54u8, 32u8, 109u8, 112u8, 120u8, 41u8]
}

/// The bytes of [`too_big_tail`].
pub fn too_big_tail_bytes() -> (res: Vec<u8>)
    ensures
        res@ == too_big_tail(),
{
    vec![32u8, 124u8, 32u8, 84u8, 111u8, 111u8, 32u8, 66u8, 105u8, 103u8, 32u8, 40u8, 62u8, 49u8, 54u8, 32u8, 109u8, 112u8, 120u8, 41u8]
}

/// `called 'Result::unwrap()' on an 'Err' value: `: the start of the message of a failed `unwrap`.
pub open spec fn unwrap_head() -> Seq<u8> {
    seq![99u8, 97u8, 108u8, 108u8, 101u8, 100u8, 32u8, 96u8, 82u8, 101u8, 115u8, 117u8, 108u8, 116u8, 58u8, 58u8, 117u8, 110u8, 119u8, 114u8, 97u8, 112u8, 40u8, 41u8, 96u8, 32u8, 111u8, 110u8, 32u8, 97u8, 110u8, 32u8, 96u8, 69u8, 114u8, 114u8, 96u8, 32u8, 118u8, 97u8, 108u8, 117u8, 101u8, 58u8, 32u8]
}

/// The bytes of [`unwrap_head`].
pub fn unwrap_head_bytes() -> (res: Vec<u8>)
    ensures
        res@ == unwrap_head(),
{
    vec![99u8, 97u8, 108u8, 108u8, 101u8, 100u8, 32u8, 96u8, 82u8, 101u8, 115u8, 117u8, 108u8, 116u8, 58u8, 58u8, 117u8, 110u8, 119u8, 114u8, 97u8, 112u8, 40u8, 41u8, 96u8, 32u8, 111u8, 110u8, 32u8, 97u8, 110u8, 32u8, 96u8, 69u8, 114u8, 114u8, 96u8, 32u8, 118u8, 97u8, 108u8, 117u8, 101u8, 58u8, 32u8]
}

/// `ParseIntError { kind: `: the start of a `ParseIntError` as `Debug` shows it.
pub open spec fn parse_error_head() -> Seq<u8> {
    seq![80u8, 97u8, 114u8, 115u8, 101u8, 73u8, 110u8, 116u8, 69u8, 114u8, 114u8, 111u8, 114u8, 32u8, 123u8, 32u8, 107u8, 105u8, 110u8, 100u8, 58u8, 32u8]
}

/// The bytes of [`parse_error_head`].
pub fn parse_error_head_bytes() -> (res: Vec<u8>)
    ensures
        res@ == parse_error_head(),
{
    vec![80u8, 97u8, 114u8, 115u8, 101u8, 73u8, 110u8, 116u8, 69u8, 114u8, 114u8, 111u8, 114u8, 32u8, 123u8, 32u8, 107u8, 105u8, 110u8, 100u8, 58u8, 32u8]
}

/// ` }`: the end of a `ParseIntError` as `Debug` shows it.
pub open spec fn parse_error_tail() -> Seq<u8> {
    seq![32u8, 125u8]
}

/// The bytes of [`parse_error_tail`].
pub fn parse_error_tail_bytes() -> (res: Vec<u8>)
    ensures
        res@ == parse_error_tail(),
{
    vec![32u8, 125u8]
}

/// `cannot parse integer from empty string`: std's text for an empty number.
pub open spec fn msg_empty() -> Seq<u8> {
    seq![99u8, 97u8, 110u8, 110u8, 111u8, 116u8, 32u8, 112u8, 97u8, 114u8, 115u8, 101u8, 32u8, 105u8, 110u8, 116u8, 101u8, 103u8, 101u8, 114u8, 32u8, 102u8, 114u8, 111u8, 109u8, 32u8, 101u8, 109u8, 112u8, 116u8, 121u8, 32u8, 115u8, 116u8, 114u8, 105u8, 110u8, 103u8]
}

/// The bytes of [`msg_empty`].
pub fn msg_empty_bytes() -> (res: Vec<u8>)
    ensures
        res@ == msg_empty(),
{
    vec![99u8, 97u8, 110u8, 110u8, 111u8, 116u8, 32u8, 112u8, 97u8, 114u8, 115u8, 101u8, 32u8, 105u8, 110u8, 116u8, 101u8, 103u8, 101u8, 114u8, 32u8, 102u8, 114u8, 111u8, 109u8, 32u8, 101u8, 109u8, 112u8, 116u8, 121u8, 32u8, 115u8, 116u8, 114u8, 105u8, 110u8, 103u8]
}

/// `invalid digit found in string`: std's text for a number with a bad digit.
pub open spec fn msg_invalid() -> Seq<u8> {
    seq![105u8, 110u8, 118u8, 97u8, 108u8, 105u8, 100u8, 32u8, 100u8, 105u8, 103u8, 105u8, 116u8, 32u8, 102u8, 111u8, 117u8, 110u8, 100u8, 32u8, 105u8, 110u8, 32u8, 115u8, 116u8, 114u8, 105u8, 110u8, 103u8]
}

/// The bytes of [`msg_invalid`].
pub fn msg_invalid_bytes() -> (res: Vec<u8>)
    ensures
        res@ == msg_invalid(),
{
    vec![105u8, 110u8, 118u8, 97u8, 108u8, 105u8, 100u8, 32u8, 100u8, 105u8, 103u8, 105u8, 116u8, 32u8, 102u8, 111u8, 117u8, 110u8, 100u8, 32u8, 105u8, 110u8, 32u8, 115u8, 116u8, 114u8, 105u8, 110u8, 103u8]
}

/// `number too large to fit in target type`: std's text for a number too large.
pub open spec fn msg_pos() -> Seq<u8> {
    seq![110u8, 117u8, 109u8, 98u8, 101u8, 114u8, 32u8, 116u8, 111u8, 111u8, 32u8, 108u8, 97u8, 114u8, 103u8, 101u8, 32u8, 116u8, 111u8, 32u8, 102u8, 105u8, 116u8, 32u8, 105u8, 110u8, 32u8, 116u8, 97u8, 114u8, 103u8, 101u8, 116u8, 32u8, 116u8, 121u8, 112u8, 101u8]
}

/// The bytes of [`msg_pos`].
pub fn msg_pos_bytes() -> (res: Vec<u8>)
    ensures
        res@ == msg_pos(),
{
    vec![110u8, 117u8, 109u8, 98u8, 101u8, 114u8, 32u8, 116u8, 111u8, 111u8, 32u8, 108u8, 97u8, 114u8, 103u8, 101u8, 32u8, 116u8, 111u8, 32u8, 102u8, 105u8, 116u8, 32u8, 105u8, 110u8, 32u8, 116u8, 97u8, 114u8, 103u8, 101u8, 116u8, 32u8, 116u8, 121u8, 112u8, 101u8]
}

/// `number too small to fit in target type`: std's text for a number too small.
pub open spec fn msg_neg() -> Seq<u8> {
    seq![110u8, 117u8, 109u8, 98u8, 101u8, 114u8, 32u8, 116u8, 111u8, 111u8, 32u8, 115u8, 109u8, 97u8, 108u8, 108u8, 32u8, 116u8, 111u8, 32u8, 102u8, 105u8, 116u8, 32u8, 105u8, 110u8, 32u8, 116u8, 97u8, 114u8, 103u8, 101u8, 116u8, 32u8, 116u8, 121u8, 112u8, 101u8]
}

/// The bytes of [`msg_neg`].
pub fn msg_neg_bytes() -> (res: Vec<u8>)
    ensures
        res@ == msg_neg(),
{
    vec![110u8, 117u8, 109u8, 98u8, 101u8, 114u8, 32u8, 116u8, 111u8, 111u8, 32u8, 115u8, 109u8, 97u8, 108u8, 108u8, 32u8, 116u8, 111u8, 32u8, 102u8, 105u8, 116u8, 32u8, 105u8, 110u8, 32u8, 116u8, 97u8, 114u8, 103u8, 101u8, 116u8, 32u8, 116u8, 121u8, 112u8, 101u8]
}

/// `Empty`: the `Debug` name of an empty number.
pub open spec fn kind_empty() -> Seq<u8> {
    seq![69u8, 109u8, 112u8, 116u8, 121u8]
}

/// The bytes of [`kind_empty`].
pub fn kind_empty_bytes() -> (res: Vec<u8>)
    ensures
        res@ == kind_empty(),
{
    vec![69u8, 109u8, 112u8, 116u8, 121u8]
}

/// `InvalidDigit`: the `Debug` name of a bad digit.
pub open spec fn kind_invalid() -> Seq<u8> {
    seq![73u8, 110u8, 118u8, 97u8, 108u8, 105u8, 100u8, 68u8, 105u8, 103u8, 105u8, 116u8]
}

/// The bytes of [`kind_invalid`].
pub fn kind_invalid_bytes() -> (res: Vec<u8>)
    ensures
        res@ == kind_invalid(),
{
    vec![73u8, 110u8, 118u8, 97u8, 108u8, 105u8, 100u8, 68u8, 105u8, 103u8, 105u8, 116u8]
}

/// `PosOverflow`: the `Debug` name of a number too large.
pub open spec fn kind_pos() -> Seq<u8> {
    seq![80u8, 111u8, 115u8, 79u8, 118u8, 101u8, 114u8, 102u8, 108u8, 111u8, 119u8]
}

/// The bytes of [`kind_pos`].
pub fn kind_pos_bytes() -> (res: Vec<u8>)
    ensures
        res@ == kind_pos(),
{
    vec![80u8, 111u8, 115u8, 79u8, 118u8, 101u8, 114u8, 102u8, 108u8, 111u8, 119u8]
}

/// `NegOverflow`: the `Debug` name of a number too small.
pub open spec fn kind_neg() -> Seq<u8> {
    seq![78u8, 101u8, 103u8, 79u8, 118u8, 101u8, 114u8, 102u8, 108u8, 111u8, 119u8]
}

/// The bytes of [`kind_neg`].
pub fn kind_neg_bytes() -> (res: Vec<u8>)
    ensures
        res@ == kind_neg(),
{
    vec![78u8, 101u8, 103u8, 79u8, 118u8, 101u8, 114u8, 102u8, 108u8, 111u8, 119u8]
}

/// `Conviertiendo imagen .webp en dimension: `: the start of the note before a WebP encoding.
pub open spec fn converting_webp() -> Seq<u8> {
    seq![67u8, 111u8, 110u8, 118u8, 105u8, 101u8, 114u8, 116u8, 105u8, 101u8, 110u8, 100u8, 111u8, 32u8, 105u8, 109u8, 97u8, 103u8, 101u8, 110u8, 32u8, 46u8, 119u8, 101u8, 98u8, 112u8, 32u8, 101u8, 110u8, 32u8, 100u8, 105u8, 109u8, 101u8, 110u8, 115u8, 105u8, 111u8, 110u8, 58u8, 32u8]
}

/// The bytes of [`converting_webp`].
pub fn converting_webp_bytes() -> (res: Vec<u8>)
    ensures
        res@ == converting_webp(),
{
    vec![67u8, 111u8, 110u8, 118u8, 105u8, 101u8, 114u8, 116u8, 105u8, 101u8, 110u8, 100u8, 111u8, 32u8, 105u8, 109u8, 97u8, 103u8, 101u8, 110u8, 32u8, 46u8, 119u8, 101u8, 98u8, 112u8, 32u8, 101u8, 110u8, 32u8, 100u8, 105u8, 109u8, 101u8, 110u8, 115u8, 105u8, 111u8, 110u8, 58u8, 32u8]
}

/// `Conviertiendo imagen .avif en dimension: `: the start of the note before an AVIF encoding.
pub open spec fn converting_avif() -> Seq<u8> {
    seq![67u8, 111u8, 110u8, 118u8, 105u8, 101u8, 114u8, 116u8, 105u8, 101u8, 110u8, 100u8, 111u8, 32u8, 105u8, 109u8, 97u8, 103u8, 101u8, 110u8, 32u8, 46u8, 97u8, 118u8, 105u8, 102u8, 32u8, 101u8, 110u8, 32u8, 100u8, 105u8, 109u8, 101u8, 110u8, 115u8, 105u8, 111u8, 110u8, 58u8, 32u8]
}

/// The bytes of [`converting_avif`].
pub fn converting_avif_bytes() -> (res: Vec<u8>)
    ensures
        res@ == converting_avif(),
{
    vec![67u8, 111u8, 110u8, 118u8, 105u8, 101u8, 114u8, 116u8, 105u8, 101u8, 110u8, 100u8, 111u8, 32u8, 105u8, 109u8, 97u8, 103u8, 101u8, 110u8, 32u8, 46u8, 97u8, 118u8, 105u8, 102u8, 32u8, 101u8, 110u8, 32u8, 100u8, 105u8, 109u8, 101u8, 110u8, 115u8, 105u8, 111u8, 110u8, 58u8, 32u8]
}

/// `...`: the end of the note before an encoding.
pub open spec fn ellipsis() -> Seq<u8> {
    seq![46u8, 46u8, 46u8]
}

/// The bytes of [`ellipsis`].
pub fn ellipsis_bytes() -> (res: Vec<u8>)
    ensures
        res@ == ellipsis(),
{
    vec![46u8, 46u8, 46u8]
}

/// `Imagen WEBP guardada en: `: the start of the note after a WebP file is written.
pub open spec fn saved_webp() -> Seq<u8> {
    seq![73u8, 109u8, 97u8, 103u8, 101u8, 110u8, 32u8, 87u8, 69u8, 66u8, 80u8, 32u8, 103u8, 117u8, 97u8, 114u8, 100u8, 97u8, 100u8, 97u8, 32u8, 101u8, 110u8, 58u8, 32u8]
}

/// The bytes of [`saved_webp`].
pub fn saved_webp_bytes() -> (res: Vec<u8>)
    ensures
        res@ == saved_webp(),
{
    vec![73u8, 109u8, 97u8, 103u8, 101u8, 110u8, 32u8, 87u8, 69u8, 66u8, 80u8, 32u8, 103u8, 117u8, 97u8, 114u8, 100u8, 97u8, 100u8, 97u8, 32u8, 101u8, 110u8, 58u8, 32u8]
}

/// `Imagen AVIF guardada en: `: the start of the note after an AVIF file is written.
pub open spec fn saved_avif() -> Seq<u8> {
    seq![73u8, 109u8, 97u8, 103u8, 101u8, 110u8, 32u8, 65u8, 86u8, 73u8, 70u8, 32u8, 103u8, 117u8, 97u8, 114u8, 100u8, 97u8, 100u8, 97u8, 32u8, 101u8, 110u8, 58u8, 32u8]
}

/// The bytes of [`saved_avif`].
pub fn saved_avif_bytes() -> (res: Vec<u8>)
    ensures
        res@ == saved_avif(),
{
    vec![73u8, 109u8, 97u8, 103u8, 101u8, 110u8, 32u8, 65u8, 86u8, 73u8, 70u8, 32u8, 103u8, 117u8, 97u8, 114u8, 100u8, 97u8, 100u8, 97u8, 32u8, 101u8, 110u8, 58u8, 32u8]
}

/// `Error encoding image: `: the start of the message for a failed AVIF encoding.
pub open spec fn encode_error_head() -> Seq<u8> {
    seq![69u8, 114u8, 114u8, 111u8, 114u8, 32u8, 101u8, 110u8, 99u8, 111u8, 100u8, 105u8, 110u8, 103u8, 32u8, 105u8, 109u8, 97u8, 103u8, 101u8, 58u8, 32u8]
}

/// The bytes of [`encode_error_head`].
pub fn encode_error_head_bytes() -> (res: Vec<u8>)
    ensures
        res@ == encode_error_head(),
{
    vec![69u8, 114u8, 114u8, 111u8, 114u8, 32u8, 101u8, 110u8, 99u8, 111u8, 100u8, 105u8, 110u8, 103u8, 32u8, 105u8, 109u8, 97u8, 103u8, 101u8, 58u8, 32u8]
}

/// `Error: Thumbnail was not generated for thumbhash.`: the message for an unknown thumbnail mode.
pub open spec fn no_thumbnail() -> Seq<u8> {
    seq![69u8, 114u8, 114u8, 111u8, 114u8, 58u8, 32u8, 84u8, 104u8, 117u8, 109u8, 98u8, 110u8, 97u8, 105u8, 108u8, 32u8, 119u8, 97u8, 115u8, 32u8, 110u8, 111u8, 116u8, 32u8, 103u8, 101u8, 110u8, 101u8, 114u8, 97u8, 116u8, 101u8, 100u8, 32u8, 102u8, 111u8, 114u8, 32u8, 116u8, 104u8, 117u8, 109u8, 98u8, 104u8, 97u8, 115u8, 104u8, 46u8]
}

/// The bytes of [`no_thumbnail`].
pub fn no_thumbnail_bytes() -> (res: Vec<u8>)
    ensures
        res@ == no_thumbnail(),
{
    vec![69u8, 114u8, 114u8, 111u8, 114u8, 58u8, 32u8, 84u8, 104u8, 117u8, 109u8, 98u8, 110u8, 97u8, 105u8, 108u8, 32u8, 119u8, 97u8, 115u8, 32u8, 110u8, 111u8, 116u8, 32u8, 103u8, 101u8, 110u8, 101u8, 114u8, 97u8, 116u8, 101u8, 100u8, 32u8, 102u8, 111u8, 114u8, 32u8, 116u8, 104u8, 117u8, 109u8, 98u8, 104u8, 97u8, 115u8, 104u8, 46u8]
}

/// `"Unimplemented"`: the WebP encoder's refusal of a pixel layout, as `Debug` shows it.
pub open spec fn unimplemented_quoted() -> Seq<u8> {
    seq![34u8, 85u8, 110u8, 105u8, 109u8, 112u8, 108u8, 101u8, 109u8, 101u8, 110u8, 116u8, 101u8, 100u8, 34u8]
}

/// `assertion failed: quality >= 1. && quality <= 100.`: the AVIF encoder's message for a quality out of range.
pub open spec fn quality_assert() -> Seq<u8> {
    seq![97u8, 115u8, 115u8, 101u8, 114u8, 116u8, 105u8, 111u8, 110u8, 32u8, 102u8, 97u8, 105u8, 108u8, 101u8, 100u8, 58u8, 32u8, 113u8, 117u8, 97u8, 108u8, 105u8, 116u8, 121u8, 32u8, 62u8, 61u8, 32u8, 49u8, 46u8, 32u8, 38u8, 38u8, 32u8, 113u8, 117u8, 97u8, 108u8, 105u8, 116u8, 121u8, 32u8, 60u8, 61u8, 32u8, 49u8, 48u8, 48u8, 46u8]
}

/// The bytes of [`quality_assert`].
pub fn quality_assert_bytes() -> (res: Vec<u8>)
    ensures
        res@ == quality_assert(),
{
    vec![97u8, 115u8, 115u8, 101u8, 114u8, 116u8, 105u8, 111u8, 110u8, 32u8, 102u8, 97u8, 105u8, 108u8, 101u8, 100u8, 58u8, 32u8, 113u8, 117u8, 97u8, 108u8, 105u8, 116u8, 121u8, 32u8, 62u8, 61u8, 32u8, 49u8, 46u8, 32u8, 38u8, 38u8, 32u8, 113u8, 117u8, 97u8, 108u8, 105u8, 116u8, 121u8, 32u8, 60u8, 61u8, 32u8, 49u8, 48u8, 48u8, 46u8]
}

/// `assertion failed: speed >= 1 && speed <= 10`: the AVIF encoder's message for a speed out of range.
pub open spec fn speed_assert() -> Seq<u8> {
    seq![97u8, 115u8, 115u8, 101u8, 114u8, 116u8, 105u8, 111u8, 110u8, 32u8, 102u8, 97u8, 105u8, 108u8, 101u8, 100u8, 58u8, 32u8, 115u8, 112u8, 101u8, 101u8, 100u8, 32u8, 62u8, 61u8, 32u8, 49u8, 32u8, 38u8, 38u8, 32u8, 115u8, 112u8, 101u8, 101u8, 100u8, 32u8, 60u8, 61u8, 32u8, 49u8, 48u8]
}

/// The bytes of [`speed_assert`].
pub fn speed_assert_bytes() -> (res: Vec<u8>)
    ensures
        res@ == speed_assert(),
{
    vec![97u8, 115u8, 115u8, 101u8, 114u8, 116u8, 105u8, 111u8, 110u8, 32u8, 102u8, 97u8, 105u8, 108u8, 101u8, 100u8, 58u8, 32u8, 115u8, 112u8, 101u8, 101u8, 100u8, 32u8, 62u8, 61u8, 32u8, 49u8, 32u8, 38u8, 38u8, 32u8, 115u8, 112u8, 101u8, 101u8, 100u8, 32u8, 60u8, 61u8, 32u8, 49u8, 48u8]
}

/// `Invalid ImgRef params. Got stride=0 for 0×`: the start of the pixel buffer's message for a zero width.
pub open spec fn stride_head() -> Seq<u8> {
    seq![73u8, 110u8, 118u8, 97u8, 108u8, 105u8, 100u8, 32u8, 73u8, 109u8, 103u8, 82u8, 101u8, 102u8, 32u8, 112u8, 97u8, 114u8, 97u8, 109u8, 115u8, 46u8, 32u8, 71u8, 111u8, 116u8, 32u8, 115u8, 116u8, 114u8, 105u8, 100u8, 101u8, 61u8, 48u8, 32u8, 102u8, 111u8, 114u8, 32u8, 48u8, 195u8, 151u8]
}

/// The bytes of [`stride_head`].
pub fn stride_head_bytes() -> (res: Vec<u8>)
    ensures
        res@ == stride_head(),
{
    vec![73u8, 110u8, 118u8, 97u8, 108u8, 105u8, 100u8, 32u8, 73u8, 109u8, 103u8, 82u8, 101u8, 102u8, 32u8, 112u8, 97u8, 114u8, 97u8, 109u8, 115u8, 46u8, 32u8, 71u8, 111u8, 116u8, 32u8, 115u8, 116u8, 114u8, 105u8, 100u8, 101u8, 61u8, 48u8, 32u8, 102u8, 111u8, 114u8, 32u8, 48u8, 195u8, 151u8]
}

/// `; len=0 (needed 0)`: the end of the pixel buffer's message for a zero width.
pub open spec fn stride_tail() -> Seq<u8> {
    seq![59u8, 32u8, 108u8, 101u8, 110u8, 61u8, 48u8, 32u8, 40u8, 110u8, 101u8, 101u8, 100u8, 101u8, 100u8, 32u8, 48u8, 41u8]
}

/// The bytes of [`stride_tail`].
pub fn stride_tail_bytes() -> (res: Vec<u8>)
    ensures
        res@ == stride_tail(),
{
    vec![59u8, 32u8, 108u8, 101u8, 110u8, 61u8, 48u8, 32u8, 40u8, 110u8, 101u8, 101u8, 100u8, 101u8, 100u8, 32u8, 48u8, 41u8]
}

/// `VP8_ENC_ERROR_BAD_DIMENSION`: libwebp's error for an image over 16383 pixels on a side, as `Debug` shows it.
pub open spec fn bad_dimension() -> Seq<u8> {
    seq![86u8, 80u8, 56u8, 95u8, 69u8, 78u8, 67u8, 95u8, 69u8, 82u8, 82u8, 79u8, 82u8, 95u8, 66u8, 65u8, 68u8, 95u8, 68u8, 73u8, 77u8, 69u8, 78u8, 83u8, 73u8, 79u8, 78u8]
}

/// The bytes of [`bad_dimension`].
pub fn bad_dimension_bytes() -> (res: Vec<u8>)
    ensures
        res@ == bad_dimension(),
{
    vec![86u8, 80u8, 56u8, 95u8, 69u8, 78u8, 67u8, 95u8, 69u8, 82u8, 82u8, 79u8, 82u8, 95u8, 66u8, 65u8, 68u8, 95u8, 68u8, 73u8, 77u8, 69u8, 78u8, 83u8, 73u8, 79u8, 78u8]
}

/// `VP8_ENC_ERROR_INVALID_CONFIGURATION`: libwebp's error for settings out of range, as `Debug` shows it.
pub open spec fn invalid_configuration() -> Seq<u8> {
    seq![86u8, 80u8, 56u8, 95u8, 69u8, 78u8, 67u8, 95u8, 69u8, 82u8, 82u8, 79u8, 82u8, 95u8, 73u8, 78u8, 86u8, 65u8, 76u8, 73u8, 68u8, 95u8, 67u8, 79u8, 78u8, 70u8, 73u8, 71u8, 85u8, 82u8, 65u8, 84u8, 73u8, 79u8, 78u8]
}

/// The bytes of [`invalid_configuration`].
pub fn invalid_configuration_bytes() -> (res: Vec<u8>)
    ensures
        res@ == invalid_configuration(),
{
    vec![86u8, 80u8, 56u8, 95u8, 69u8, 78u8, 67u8, 95u8, 69u8, 82u8, 82u8, 79u8, 82u8, 95u8, 73u8, 78u8, 86u8, 65u8, 76u8, 73u8, 68u8, 95u8, 67u8, 79u8, 78u8, 70u8, 73u8, 71u8, 85u8, 82u8, 65u8, 84u8, 73u8, 79u8, 78u8]
}
} // verus!
