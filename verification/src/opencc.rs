//! Conversion between Simplified and Traditional Chinese script.

use vstd::prelude::*;
use ferrous_opencc::OpenCC;
use ferrous_opencc::config::BuiltinConfig;
use ferrous_opencc::error::OpenCCError;
use crate::text::str_eq;

verus! {

#[verifier::external_type_specification]
#[verifier::external_body]
pub struct ExOpenCC(OpenCC);

#[verifier::external_type_specification]
pub struct ExBuiltinConfig(BuiltinConfig);

#[verifier::external_type_specification]
#[verifier::external_body]
pub struct ExOpenCCError(OpenCCError);

/// The configuration files built into the converter (with its default
/// features: simplified-to-traditional and traditional-to-simplified).
pub open spec fn is_builtin_config_file(name: Seq<char>) -> bool {
    ||| name == "s2t.json"@
    ||| name == "t2s.json"@
    ||| name == "s2tw.json"@
    ||| name == "tw2s.json"@
    ||| name == "s2hk.json"@
    ||| name == "hk2s.json"@
    ||| name == "s2twp.json"@
    ||| name == "tw2sp.json"@
    ||| name == "t2tw.json"@
    ||| name == "tw2t.json"@
    ||| name == "t2hk.json"@
    ||| name == "hk2t.json"@
}

/// The file name of a built-in configuration (`BuiltinConfig::to_filename`).
pub open spec fn builtin_file_name(c: BuiltinConfig) -> Seq<char> {
    match c {
        BuiltinConfig::S2t => "s2t.json"@,
        BuiltinConfig::T2s => "t2s.json"@,
        BuiltinConfig::S2tw => "s2tw.json"@,
        BuiltinConfig::Tw2s => "tw2s.json"@,
        BuiltinConfig::S2hk => "s2hk.json"@,
        BuiltinConfig::Hk2s => "hk2s.json"@,
        BuiltinConfig::S2twp => "s2twp.json"@,
        BuiltinConfig::Tw2sp => "tw2sp.json"@,
        BuiltinConfig::T2tw => "t2tw.json"@,
        BuiltinConfig::Tw2t => "tw2t.json"@,
        BuiltinConfig::T2hk => "t2hk.json"@,
        BuiltinConfig::Hk2t => "hk2t.json"@,
    }
}

/// The configuration file a converter was built from.
pub uninterp spec fn opencc_made_with(converter: OpenCC) -> Seq<char>;

/// Whether `OpenCC::from_config` builds the converter of the built-in
/// configuration file `config_file` from the dictionaries embedded in the
/// crate.
pub uninterp spec fn opencc_builds(config_file: Seq<char>) -> bool;

/// What `OpenCC::convert` gives for `text` with the converter of the
/// built-in configuration file `config_file`.
pub uninterp spec fn opencc_conversion(config_file: Seq<char>, text: Seq<char>) -> Seq<char>;

/// `BuiltinConfig::from_filename`: succeeds exactly for the names of the
/// built-in configuration files, with the configuration of that name.
#[verifier::external_body]
fn builtin_config(filename: &str) -> (r: Result<BuiltinConfig, OpenCCError>)
    ensures
        r is Ok <==> is_builtin_config_file(filename@),
        r is Ok ==> builtin_file_name(r->Ok_0) == filename@,
{
    BuiltinConfig::from_filename(filename)
}

/// `OpenCC::from_config`: builds the converter of a built-in configuration
/// from the dictionaries embedded in the crate. Whether that succeeds, and
/// the converter, depend on the configuration alone; the converter is the
/// one of that configuration's file.
#[verifier::external_body]
fn opencc_from_config(config: BuiltinConfig) -> (r: Result<OpenCC, OpenCCError>)
    ensures
        r is Ok <==> opencc_builds(builtin_file_name(config)),
        r is Ok ==> opencc_made_with(r->Ok_0) == builtin_file_name(config),
{
    OpenCC::from_config(config)
}

/// `OpenCC::convert`: the text converted by the converter's dictionaries,
/// which are those of the configuration it was built from.
#[verifier::external_body]
fn opencc_convert(converter: &OpenCC, text: &str) -> (r: String)
    ensures
        r@ == opencc_conversion(opencc_made_with(*converter), text@),
{
    converter.convert(text)
}

/// The result of converting `text` with the configuration file `file`: the
/// conversion when the file is built in and its converter builds, otherwise
/// the text unchanged.
pub open spec fn converted_with(file: Seq<char>, text: Seq<char>) -> Seq<char> {
    if is_builtin_config_file(file) && opencc_builds(file) {
        opencc_conversion(file, text)
    } else {
        text
    }
}

/// Converts `text` with the built-in configuration named `config` (the file
/// "`config`.json"); when there is no such configuration, or it cannot be
/// built, the text comes back unchanged.
fn convert(text: &str, config: &str) -> (r: String)
    ensures
        r@ == converted_with(config@ + ".json"@, text@),
{
    let mut file = String::from_str(config);
    file.append(".json");
    match builtin_config(file.as_str()) {
        Ok(c) => match opencc_from_config(c) {
            Ok(cc) => opencc_convert(&cc, text),
            Err(_) => String::from_str(text),
        },
        Err(_) => String::from_str(text),
    }
}

/// Simplified Chinese to Traditional Chinese (Taiwan, with Taiwanese
/// vocabulary): the built-in "s2twp" conversion.
pub fn s2twp(text: &str) -> (r: String)
    ensures
        r@ == converted_with("s2twp.json"@, text@),
{
    proof {
        reveal_strlit("s2twp");
        reveal_strlit(".json");
        reveal_strlit("s2twp.json");
        assert("s2twp"@ + ".json"@ =~= "s2twp.json"@);
    }
    convert(text, "s2twp")
}

/// Traditional Chinese (Taiwan) to Simplified Chinese, with mainland
/// vocabulary: the built-in "tw2sp" conversion.
pub fn t2sp(text: &str) -> (r: String)
    ensures
        r@ == converted_with("tw2sp.json"@, text@),
{
    proof {
        reveal_strlit("tw2sp");
        reveal_strlit(".json");
        reveal_strlit("tw2sp.json");
        assert("tw2sp"@ + ".json"@ =~= "tw2sp.json"@);
    }
    convert(text, "tw2sp")
}

/// Applies the conversion a mode names: "s2twp" (Simplified to Traditional,
/// Taiwan), "t2sp" (Traditional, Taiwan, to Simplified), or anything else
/// for no conversion.
pub fn apply_mode(text: &str, mode: &str) -> (r: String)
    ensures
        mode@ == "s2twp"@ ==> r@ == converted_with("s2twp.json"@, text@),
        mode@ != "s2twp"@ && mode@ != "t2sp"@ ==> r@ == text@,
        mode@ == "t2sp"@ ==> r@ == converted_with("tw2sp.json"@, text@),
{
    proof {
        reveal_strlit("s2twp");
        reveal_strlit("t2sp");
        assert("s2twp"@.len() != "t2sp"@.len());
    }
    if str_eq(mode, "s2twp") {
        s2twp(text)
    } else if str_eq(mode, "t2sp") {
        t2sp(text)
    } else {
        String::from_str(text)
    }
}

} // verus!
