use vstd::prelude::*;
use vstd::string::*;

use crate::json::{
    accepts_bool, accepts_list, accepts_num, accepts_obj, accepts_opt_bool, accepts_opt_count, accepts_opt_list,
    accepts_opt_obj, accepts_opt_str, accepts_str, accepts_str_list, absent, bool_rep,
    keys_of, list_from_json, list_rep, list_to_json, lookup_from, map_to_json, member, num_rep, obj_rep, opt_bool,
    opt_bool_rep, opt_count, opt_count_rep, opt_list, opt_list_rep, opt_obj_map_rep, opt_obj_rep,
    opt_object, opt_str_map_rep, opt_str_rep, opt_string, push_member, req_bool, req_number,
    req_object,
    req_string, str_list_rep, str_map_to_json, str_rep, string_list, strings_to_json, take_member,
    has_unique_keys, list_written, obj_written, object_keys, opt_obj_map_written, opt_obj_written,
    without_nulls, unique_keys, FromJson, Json, JsonSchema, ToJson,
};
use crate::operation::Operation;

verus! {

/// The format of source text.
#[derive(Debug, Clone, Copy, PartialEq, Eq, Structural)]
pub enum MimeType {
    Plain,
    Html,
}

/// `m` is the wire name of the optional format `v`.
pub open spec fn opt_mime_rep(m: Option<Json>, v: Option<MimeType>) -> bool {
    match v {
        None => absent(m),
        Some(t) => match m {
            Some(Json::Str(s)) => s@ == t.wire_name(),
            _ => false,
        },
    }
}

impl MimeType {
    /// The name of the format on the wire.
    pub open spec fn wire_name(self) -> Seq<char> {
        match self {
            MimeType::Plain => "text/plain"@,
            MimeType::Html => "text/html"@,
        }
    }

    /// The name of the format on the wire.
    pub fn as_str(&self) -> (r: &'static str)
        ensures
            r@ == self.wire_name(),
    {
        match self {
            MimeType::Plain => "text/plain",
            MimeType::Html => "text/html",
        }
    }
}

/// A file in Cloud Storage to read from.
#[derive(Debug)]
pub struct GcsSource {
    pub input_uri: String,
}


impl JsonSchema for GcsSource {
    open spec fn represents(j: Json, v: GcsSource) -> bool {
        &&& j is Object
        &&& str_rep(member(j, "inputUri"@), v.input_uri)
    }
}

impl FromJson for GcsSource {
    open spec fn accepts(j: Json) -> bool {
        &&& j is Object
        &&& accepts_str(member(j, "inputUri"@))
    }

    fn from_json(j: Json) -> (r: Option<GcsSource>) {
        match j {
            Json::Object(members) => GcsSource::from_members(members),
            _ => None,
        }
    }
}

impl GcsSource {
    fn from_members(members: Vec<(String, Json)>) -> (r: Option<GcsSource>)
        ensures
            r is Some == GcsSource::accepts(Json::Object(members)),
            r is Some ==> GcsSource::represents(Json::Object(members), r.unwrap()),
    {
        let ghost f0 = members@;
        let mut fields = members;
        

        let input_uri_m = take_member(&mut fields, "inputUri");
        assert(input_uri_m == lookup_from(f0, "inputUri"@, 0));
        let input_uri = match req_string(input_uri_m) {
            Some(x) => x,
            None => {
                return None;
            },
        };
        Some(GcsSource { input_uri })
    }
}

impl ToJson for GcsSource {
    open spec fn wire_keys(v: GcsSource) -> Seq<Seq<char>> {
        seq!["inputUri"@]
    }

    open spec fn written(j: Json, v: GcsSource) -> bool {
        &&& j is Object
        &&& object_keys(j) == GcsSource::wire_keys(v)
        &&& without_nulls(j)
        &&& str_rep(member(j, "inputUri"@), v.input_uri)
    }

    fn to_json(&self) -> (r: Json) {
        
        let mut fields: Vec<(String, Json)> = Vec::new();
        push_member(&mut fields, "inputUri", Json::Str(self.input_uri.clone()));
        assert(keys_of(fields@) =~= GcsSource::wire_keys(*self));
        Json::Object(fields)
    }
}

/// A Cloud Storage prefix to write to.
#[derive(Debug)]
pub struct GcsDestination {
    pub output_uri_prefix: String,
}


impl JsonSchema for GcsDestination {
    open spec fn represents(j: Json, v: GcsDestination) -> bool {
        &&& j is Object
        &&& str_rep(member(j, "outputUriPrefix"@), v.output_uri_prefix)
    }
}

impl ToJson for GcsDestination {
    open spec fn wire_keys(v: GcsDestination) -> Seq<Seq<char>> {
        seq!["outputUriPrefix"@]
    }

    open spec fn written(j: Json, v: GcsDestination) -> bool {
        &&& j is Object
        &&& object_keys(j) == GcsDestination::wire_keys(v)
        &&& without_nulls(j)
        &&& str_rep(member(j, "outputUriPrefix"@), v.output_uri_prefix)
    }

    fn to_json(&self) -> (r: Json) {
        
        let mut fields: Vec<(String, Json)> = Vec::new();
        push_member(&mut fields, "outputUriPrefix", Json::Str(self.output_uri_prefix.clone()));
        assert(keys_of(fields@) =~= GcsDestination::wire_keys(*self));
        Json::Object(fields)
    }
}

/// Which glossary applies to a translation, and how.
#[derive(Debug)]
pub struct TranslateTextGlossaryConfig {
    pub glossary: String,
    pub ignore_case: Option<bool>,
}

/// The member names of the wire form of `TranslateTextGlossaryConfig` differ from one another.
proof fn lemma_translate_text_glossary_config_names()
    ensures
        "ignoreCase"@ != "glossary"@,
{
    reveal_strlit("glossary");
    reveal_strlit("ignoreCase");
    assert("ignoreCase"@.len() != "glossary"@.len());
}

impl JsonSchema for TranslateTextGlossaryConfig {
    open spec fn represents(j: Json, v: TranslateTextGlossaryConfig) -> bool {
        &&& j is Object
        &&& str_rep(member(j, "glossary"@), v.glossary)
        &&& opt_bool_rep(member(j, "ignoreCase"@), v.ignore_case)
    }
}

impl FromJson for TranslateTextGlossaryConfig {
    open spec fn accepts(j: Json) -> bool {
        &&& j is Object
        &&& accepts_str(member(j, "glossary"@))
        &&& accepts_opt_bool(member(j, "ignoreCase"@))
    }

    fn from_json(j: Json) -> (r: Option<TranslateTextGlossaryConfig>) {
        match j {
            Json::Object(members) => TranslateTextGlossaryConfig::from_members(members),
            _ => None,
        }
    }
}

impl TranslateTextGlossaryConfig {
    fn from_members(members: Vec<(String, Json)>) -> (r: Option<TranslateTextGlossaryConfig>)
        ensures
            r is Some == TranslateTextGlossaryConfig::accepts(Json::Object(members)),
            r is Some ==> TranslateTextGlossaryConfig::represents(Json::Object(members), r.unwrap()),
    {
        let ghost f0 = members@;
        let mut fields = members;
        proof {
            lemma_translate_text_glossary_config_names();
        }

        let glossary_m = take_member(&mut fields, "glossary");
        let ignore_case_m = take_member(&mut fields, "ignoreCase");
        assert(glossary_m == lookup_from(f0, "glossary"@, 0));
        assert(ignore_case_m == lookup_from(f0, "ignoreCase"@, 0));
        let glossary = match req_string(glossary_m) {
            Some(x) => x,
            None => {
                return None;
            },
        };
        let ignore_case = match opt_bool(ignore_case_m) {
            Some(x) => x,
            None => {
                return None;
            },
        };
        Some(TranslateTextGlossaryConfig { glossary, ignore_case })
    }
}

impl ToJson for TranslateTextGlossaryConfig {
    open spec fn wire_keys(v: TranslateTextGlossaryConfig) -> Seq<Seq<char>> {
        seq!["glossary"@]
            + (if v.ignore_case is Some { seq!["ignoreCase"@] } else { seq![] })
    }

    open spec fn written(j: Json, v: TranslateTextGlossaryConfig) -> bool {
        &&& j is Object
        &&& object_keys(j) == TranslateTextGlossaryConfig::wire_keys(v)
        &&& without_nulls(j)
        &&& str_rep(member(j, "glossary"@), v.glossary)
        &&& opt_bool_rep(member(j, "ignoreCase"@), v.ignore_case)
    }

    fn to_json(&self) -> (r: Json) {
        proof {
            lemma_translate_text_glossary_config_names();
        }
        let mut fields: Vec<(String, Json)> = Vec::new();
        push_member(&mut fields, "glossary", Json::Str(self.glossary.clone()));
        match self.ignore_case {
            Some(x) => {
                push_member(&mut fields, "ignoreCase", Json::Bool(x));
            },
            None => {},
        }
        assert(keys_of(fields@) =~= TranslateTextGlossaryConfig::wire_keys(*self));
        Json::Object(fields)
    }
}

/// The source and target language of a unidirectional glossary.
#[derive(Debug)]
pub struct LanguageCodePair {
    pub source_language_code: String,
    pub target_language_code: String,
}

/// The member names of the wire form of `LanguageCodePair` differ from one another.
proof fn lemma_language_code_pair_names()
    ensures
        "targetLanguageCode"@ != "sourceLanguageCode"@,
{
    reveal_strlit("sourceLanguageCode");
    reveal_strlit("targetLanguageCode");
    assert("targetLanguageCode"@[0] != "sourceLanguageCode"@[0]);
}

impl JsonSchema for LanguageCodePair {
    open spec fn represents(j: Json, v: LanguageCodePair) -> bool {
        &&& j is Object
        &&& str_rep(member(j, "sourceLanguageCode"@), v.source_language_code)
        &&& str_rep(member(j, "targetLanguageCode"@), v.target_language_code)
    }
}

impl FromJson for LanguageCodePair {
    open spec fn accepts(j: Json) -> bool {
        &&& j is Object
        &&& accepts_str(member(j, "sourceLanguageCode"@))
        &&& accepts_str(member(j, "targetLanguageCode"@))
    }

    fn from_json(j: Json) -> (r: Option<LanguageCodePair>) {
        match j {
            Json::Object(members) => LanguageCodePair::from_members(members),
            _ => None,
        }
    }
}

impl LanguageCodePair {
    fn from_members(members: Vec<(String, Json)>) -> (r: Option<LanguageCodePair>)
        ensures
            r is Some == LanguageCodePair::accepts(Json::Object(members)),
            r is Some ==> LanguageCodePair::represents(Json::Object(members), r.unwrap()),
    {
        let ghost f0 = members@;
        let mut fields = members;
        proof {
            lemma_language_code_pair_names();
        }

        let source_language_code_m = take_member(&mut fields, "sourceLanguageCode");
        let target_language_code_m = take_member(&mut fields, "targetLanguageCode");
        assert(source_language_code_m == lookup_from(f0, "sourceLanguageCode"@, 0));
        assert(target_language_code_m == lookup_from(f0, "targetLanguageCode"@, 0));
        let source_language_code = match req_string(source_language_code_m) {
            Some(x) => x,
            None => {
                return None;
            },
        };
        let target_language_code = match req_string(target_language_code_m) {
            Some(x) => x,
            None => {
                return None;
            },
        };
        Some(LanguageCodePair { source_language_code, target_language_code })
    }
}

impl ToJson for LanguageCodePair {
    open spec fn wire_keys(v: LanguageCodePair) -> Seq<Seq<char>> {
        seq!["sourceLanguageCode"@]
            + seq!["targetLanguageCode"@]
    }

    open spec fn written(j: Json, v: LanguageCodePair) -> bool {
        &&& j is Object
        &&& object_keys(j) == LanguageCodePair::wire_keys(v)
        &&& without_nulls(j)
        &&& str_rep(member(j, "sourceLanguageCode"@), v.source_language_code)
        &&& str_rep(member(j, "targetLanguageCode"@), v.target_language_code)
    }

    fn to_json(&self) -> (r: Json) {
        proof {
            lemma_language_code_pair_names();
        }
        let mut fields: Vec<(String, Json)> = Vec::new();
        push_member(&mut fields, "sourceLanguageCode", Json::Str(self.source_language_code.clone()));
        push_member(&mut fields, "targetLanguageCode", Json::Str(self.target_language_code.clone()));
        assert(keys_of(fields@) =~= LanguageCodePair::wire_keys(*self));
        Json::Object(fields)
    }
}

/// The languages of an equivalent-term-sets glossary.
#[derive(Debug)]
pub struct LanguageCodesSet {
    pub language_codes: Vec<String>,
}


impl JsonSchema for LanguageCodesSet {
    open spec fn represents(j: Json, v: LanguageCodesSet) -> bool {
        &&& j is Object
        &&& str_list_rep(member(j, "languageCodes"@), v.language_codes@)
    }
}

impl FromJson for LanguageCodesSet {
    open spec fn accepts(j: Json) -> bool {
        &&& j is Object
        &&& accepts_str_list(member(j, "languageCodes"@))
    }

    fn from_json(j: Json) -> (r: Option<LanguageCodesSet>) {
        match j {
            Json::Object(members) => LanguageCodesSet::from_members(members),
            _ => None,
        }
    }
}

impl LanguageCodesSet {
    fn from_members(members: Vec<(String, Json)>) -> (r: Option<LanguageCodesSet>)
        ensures
            r is Some == LanguageCodesSet::accepts(Json::Object(members)),
            r is Some ==> LanguageCodesSet::represents(Json::Object(members), r.unwrap()),
    {
        let ghost f0 = members@;
        let mut fields = members;
        

        let language_codes_m = take_member(&mut fields, "languageCodes");
        assert(language_codes_m == lookup_from(f0, "languageCodes"@, 0));
        let language_codes = match string_list(language_codes_m) {
            Some(x) => x,
            None => {
                return None;
            },
        };
        Some(LanguageCodesSet { language_codes })
    }
}

impl ToJson for LanguageCodesSet {
    open spec fn wire_keys(v: LanguageCodesSet) -> Seq<Seq<char>> {
        seq!["languageCodes"@]
    }

    open spec fn written(j: Json, v: LanguageCodesSet) -> bool {
        &&& j is Object
        &&& object_keys(j) == LanguageCodesSet::wire_keys(v)
        &&& without_nulls(j)
        &&& str_list_rep(member(j, "languageCodes"@), v.language_codes@)
    }

    fn to_json(&self) -> (r: Json) {
        
        let mut fields: Vec<(String, Json)> = Vec::new();
        push_member(&mut fields, "languageCodes", strings_to_json(&self.language_codes));
        assert(keys_of(fields@) =~= LanguageCodesSet::wire_keys(*self));
        Json::Object(fields)
    }
}

/// Where the entries of a glossary are read from.
#[derive(Debug)]
pub struct GlossaryInputConfig {
    pub gcs_source: GcsSource,
}


impl JsonSchema for GlossaryInputConfig {
    open spec fn represents(j: Json, v: GlossaryInputConfig) -> bool {
        &&& j is Object
        &&& obj_rep(member(j, "gcsSource"@), v.gcs_source)
    }
}

impl FromJson for GlossaryInputConfig {
    open spec fn accepts(j: Json) -> bool {
        &&& j is Object
        &&& accepts_obj::<GcsSource>(member(j, "gcsSource"@))
    }

    fn from_json(j: Json) -> (r: Option<GlossaryInputConfig>) {
        match j {
            Json::Object(members) => GlossaryInputConfig::from_members(members),
            _ => None,
        }
    }
}

impl GlossaryInputConfig {
    fn from_members(members: Vec<(String, Json)>) -> (r: Option<GlossaryInputConfig>)
        ensures
            r is Some == GlossaryInputConfig::accepts(Json::Object(members)),
            r is Some ==> GlossaryInputConfig::represents(Json::Object(members), r.unwrap()),
    {
        let ghost f0 = members@;
        let mut fields = members;
        

        let gcs_source_m = take_member(&mut fields, "gcsSource");
        assert(gcs_source_m == lookup_from(f0, "gcsSource"@, 0));
        let gcs_source = match req_object::<GcsSource>(gcs_source_m) {
            Some(x) => x,
            None => {
                return None;
            },
        };
        Some(GlossaryInputConfig { gcs_source })
    }
}

impl ToJson for GlossaryInputConfig {
    open spec fn wire_keys(v: GlossaryInputConfig) -> Seq<Seq<char>> {
        seq!["gcsSource"@]
    }

    open spec fn written(j: Json, v: GlossaryInputConfig) -> bool {
        &&& j is Object
        &&& object_keys(j) == GlossaryInputConfig::wire_keys(v)
        &&& without_nulls(j)
        &&& obj_written(member(j, "gcsSource"@), v.gcs_source)
    }

    fn to_json(&self) -> (r: Json) {
        
        let mut fields: Vec<(String, Json)> = Vec::new();
        push_member(&mut fields, "gcsSource", self.gcs_source.to_json());
        assert(keys_of(fields@) =~= GlossaryInputConfig::wire_keys(*self));
        Json::Object(fields)
    }
}

/// A glossary resource.
#[derive(Debug)]
pub struct Glossary {
    pub name: String,
    pub input_config: GlossaryInputConfig,
    pub entry_count: Option<usize>,
    pub submit_time: Option<String>,
    pub end_time: Option<String>,
    pub language_pair: Option<LanguageCodePair>,
    pub language_codes_set: Option<LanguageCodesSet>,
}

/// The member names of the wire form of `Glossary` differ from one another.
proof fn lemma_glossary_names()
    ensures
        "inputConfig"@ != "name"@,
        "entryCount"@ != "name"@,
        "entryCount"@ != "inputConfig"@,
        "submitTime"@ != "name"@,
        "submitTime"@ != "inputConfig"@,
        "submitTime"@ != "entryCount"@,
        "endTime"@ != "name"@,
        "endTime"@ != "inputConfig"@,
        "endTime"@ != "entryCount"@,
        "endTime"@ != "submitTime"@,
        "languagePair"@ != "name"@,
        "languagePair"@ != "inputConfig"@,
        "languagePair"@ != "entryCount"@,
        "languagePair"@ != "submitTime"@,
        "languagePair"@ != "endTime"@,
        "languageCodesSet"@ != "name"@,
        "languageCodesSet"@ != "inputConfig"@,
        "languageCodesSet"@ != "entryCount"@,
        "languageCodesSet"@ != "submitTime"@,
        "languageCodesSet"@ != "endTime"@,
        "languageCodesSet"@ != "languagePair"@,
{
    reveal_strlit("name");
    reveal_strlit("inputConfig");
    reveal_strlit("entryCount");
    reveal_strlit("submitTime");
    reveal_strlit("endTime");
    reveal_strlit("languagePair");
    reveal_strlit("languageCodesSet");
    assert("inputConfig"@.len() != "name"@.len());
    assert("entryCount"@.len() != "name"@.len());
    assert("entryCount"@.len() != "inputConfig"@.len());
    assert("submitTime"@.len() != "name"@.len());
    assert("submitTime"@.len() != "inputConfig"@.len());
    assert("submitTime"@[0] != "entryCount"@[0]);
    assert("endTime"@.len() != "name"@.len());
    assert("endTime"@.len() != "inputConfig"@.len());
    assert("endTime"@.len() != "entryCount"@.len());
    assert("endTime"@.len() != "submitTime"@.len());
    assert("languagePair"@.len() != "name"@.len());
    assert("languagePair"@.len() != "inputConfig"@.len());
    assert("languagePair"@.len() != "entryCount"@.len());
    assert("languagePair"@.len() != "submitTime"@.len());
    assert("languagePair"@.len() != "endTime"@.len());
    assert("languageCodesSet"@.len() != "name"@.len());
    assert("languageCodesSet"@.len() != "inputConfig"@.len());
    assert("languageCodesSet"@.len() != "entryCount"@.len());
    assert("languageCodesSet"@.len() != "submitTime"@.len());
    assert("languageCodesSet"@.len() != "endTime"@.len());
    assert("languageCodesSet"@.len() != "languagePair"@.len());
}

impl JsonSchema for Glossary {
    open spec fn represents(j: Json, v: Glossary) -> bool {
        &&& j is Object
        &&& str_rep(member(j, "name"@), v.name)
        &&& obj_rep(member(j, "inputConfig"@), v.input_config)
        &&& opt_count_rep(member(j, "entryCount"@), v.entry_count)
        &&& opt_str_rep(member(j, "submitTime"@), v.submit_time)
        &&& opt_str_rep(member(j, "endTime"@), v.end_time)
        &&& opt_obj_rep(member(j, "languagePair"@), v.language_pair)
        &&& opt_obj_rep(member(j, "languageCodesSet"@), v.language_codes_set)
    }
}

impl FromJson for Glossary {
    open spec fn accepts(j: Json) -> bool {
        &&& j is Object
        &&& accepts_str(member(j, "name"@))
        &&& accepts_obj::<GlossaryInputConfig>(member(j, "inputConfig"@))
        &&& accepts_opt_count(member(j, "entryCount"@))
        &&& accepts_opt_str(member(j, "submitTime"@))
        &&& accepts_opt_str(member(j, "endTime"@))
        &&& accepts_opt_obj::<LanguageCodePair>(member(j, "languagePair"@))
        &&& accepts_opt_obj::<LanguageCodesSet>(member(j, "languageCodesSet"@))
    }

    fn from_json(j: Json) -> (r: Option<Glossary>) {
        match j {
            Json::Object(members) => Glossary::from_members(members),
            _ => None,
        }
    }
}

impl Glossary {
    fn from_members(members: Vec<(String, Json)>) -> (r: Option<Glossary>)
        ensures
            r is Some == Glossary::accepts(Json::Object(members)),
            r is Some ==> Glossary::represents(Json::Object(members), r.unwrap()),
    {
        let ghost f0 = members@;
        let mut fields = members;
        proof {
            lemma_glossary_names();
        }

        let name_m = take_member(&mut fields, "name");
        let input_config_m = take_member(&mut fields, "inputConfig");
        let entry_count_m = take_member(&mut fields, "entryCount");
        let submit_time_m = take_member(&mut fields, "submitTime");
        let end_time_m = take_member(&mut fields, "endTime");
        let language_pair_m = take_member(&mut fields, "languagePair");
        let language_codes_set_m = take_member(&mut fields, "languageCodesSet");
        assert(name_m == lookup_from(f0, "name"@, 0));
        assert(input_config_m == lookup_from(f0, "inputConfig"@, 0));
        assert(entry_count_m == lookup_from(f0, "entryCount"@, 0));
        assert(submit_time_m == lookup_from(f0, "submitTime"@, 0));
        assert(end_time_m == lookup_from(f0, "endTime"@, 0));
        assert(language_pair_m == lookup_from(f0, "languagePair"@, 0));
        assert(language_codes_set_m == lookup_from(f0, "languageCodesSet"@, 0));
        let name = match req_string(name_m) {
            Some(x) => x,
            None => {
                return None;
            },
        };
        let input_config = match req_object::<GlossaryInputConfig>(input_config_m) {
            Some(x) => x,
            None => {
                return None;
            },
        };
        let entry_count = match opt_count(entry_count_m) {
            Some(x) => x,
            None => {
                return None;
            },
        };
        let submit_time = match opt_string(submit_time_m) {
            Some(x) => x,
            None => {
                return None;
            },
        };
        let end_time = match opt_string(end_time_m) {
            Some(x) => x,
            None => {
                return None;
            },
        };
        let language_pair = match opt_object::<LanguageCodePair>(language_pair_m) {
            Some(x) => x,
            None => {
                return None;
            },
        };
        let language_codes_set = match opt_object::<LanguageCodesSet>(language_codes_set_m) {
            Some(x) => x,
            None => {
                return None;
            },
        };
        Some(Glossary { name, input_config, entry_count, submit_time, end_time, language_pair, language_codes_set })
    }
}

impl ToJson for Glossary {
    open spec fn wire_keys(v: Glossary) -> Seq<Seq<char>> {
        seq!["name"@]
            + seq!["inputConfig"@]
            + (if v.entry_count is Some { seq!["entryCount"@] } else { seq![] })
            + (if v.submit_time is Some { seq!["submitTime"@] } else { seq![] })
            + (if v.end_time is Some { seq!["endTime"@] } else { seq![] })
            + (if v.language_pair is Some { seq!["languagePair"@] } else { seq![] })
            + (if v.language_codes_set is Some { seq!["languageCodesSet"@] } else { seq![] })
    }

    open spec fn written(j: Json, v: Glossary) -> bool {
        &&& j is Object
        &&& object_keys(j) == Glossary::wire_keys(v)
        &&& without_nulls(j)
        &&& str_rep(member(j, "name"@), v.name)
        &&& obj_written(member(j, "inputConfig"@), v.input_config)
        &&& opt_count_rep(member(j, "entryCount"@), v.entry_count)
        &&& opt_str_rep(member(j, "submitTime"@), v.submit_time)
        &&& opt_str_rep(member(j, "endTime"@), v.end_time)
        &&& opt_obj_written(member(j, "languagePair"@), v.language_pair)
        &&& opt_obj_written(member(j, "languageCodesSet"@), v.language_codes_set)
    }

    fn to_json(&self) -> (r: Json) {
        proof {
            lemma_glossary_names();
        }
        let mut fields: Vec<(String, Json)> = Vec::new();
        push_member(&mut fields, "name", Json::Str(self.name.clone()));
        push_member(&mut fields, "inputConfig", self.input_config.to_json());
        match self.entry_count {
            Some(x) => {
                push_member(&mut fields, "entryCount", Json::UInt(x as u64));
            },
            None => {},
        }
        match &self.submit_time {
            Some(x) => {
                push_member(&mut fields, "submitTime", Json::Str(x.clone()));
            },
            None => {},
        }
        match &self.end_time {
            Some(x) => {
                push_member(&mut fields, "endTime", Json::Str(x.clone()));
            },
            None => {},
        }
        match &self.language_pair {
            Some(x) => {
                push_member(&mut fields, "languagePair", x.to_json());
            },
            None => {},
        }
        match &self.language_codes_set {
            Some(x) => {
                push_member(&mut fields, "languageCodesSet", x.to_json());
            },
            None => {},
        }
        let ghost r = Json::Object(fields);
        assert(str_rep(member(r, "name"@), self.name));
        assert(obj_rep(member(r, "inputConfig"@), self.input_config));
        assert(opt_count_rep(member(r, "entryCount"@), self.entry_count));
        assert(opt_str_rep(member(r, "submitTime"@), self.submit_time));
        assert(opt_str_rep(member(r, "endTime"@), self.end_time));
        assert(opt_obj_rep(member(r, "languagePair"@), self.language_pair));
        assert(opt_obj_rep(member(r, "languageCodesSet"@), self.language_codes_set));
        assert(keys_of(fields@) =~= Glossary::wire_keys(*self));
        Json::Object(fields)
    }
}

/// One page of glossaries.
#[derive(Debug)]
pub struct ListGlossariesResponse {
    /// The glossary of each target language code.
    pub glossaries: Vec<Glossary>,
    pub next_page_token: Option<String>,
}

/// The member names of the wire form of `ListGlossariesResponse` differ from one another.
proof fn lemma_list_glossaries_response_names()
    ensures
        "nextPageToken"@ != "glossaries"@,
{
    reveal_strlit("glossaries");
    reveal_strlit("nextPageToken");
    assert("nextPageToken"@.len() != "glossaries"@.len());
}

impl JsonSchema for ListGlossariesResponse {
    open spec fn represents(j: Json, v: ListGlossariesResponse) -> bool {
        &&& j is Object
        &&& list_rep(member(j, "glossaries"@), v.glossaries@)
        &&& opt_str_rep(member(j, "nextPageToken"@), v.next_page_token)
    }
}

impl FromJson for ListGlossariesResponse {
    open spec fn accepts(j: Json) -> bool {
        &&& j is Object
        &&& accepts_list::<Glossary>(member(j, "glossaries"@))
        &&& accepts_opt_str(member(j, "nextPageToken"@))
    }

    fn from_json(j: Json) -> (r: Option<ListGlossariesResponse>) {
        match j {
            Json::Object(members) => ListGlossariesResponse::from_members(members),
            _ => None,
        }
    }
}

impl ListGlossariesResponse {
    fn from_members(members: Vec<(String, Json)>) -> (r: Option<ListGlossariesResponse>)
        ensures
            r is Some == ListGlossariesResponse::accepts(Json::Object(members)),
            r is Some ==> ListGlossariesResponse::represents(Json::Object(members), r.unwrap()),
    {
        let ghost f0 = members@;
        let mut fields = members;
        proof {
            lemma_list_glossaries_response_names();
        }

        let glossaries_m = take_member(&mut fields, "glossaries");
        let next_page_token_m = take_member(&mut fields, "nextPageToken");
        assert(glossaries_m == lookup_from(f0, "glossaries"@, 0));
        assert(next_page_token_m == lookup_from(f0, "nextPageToken"@, 0));
        let glossaries = match list_from_json::<Glossary>(glossaries_m) {
            Some(x) => x,
            None => {
                return None;
            },
        };
        let next_page_token = match opt_string(next_page_token_m) {
            Some(x) => x,
            None => {
                return None;
            },
        };
        Some(ListGlossariesResponse { glossaries, next_page_token })
    }
}

/// A language the service supports.
#[derive(Debug)]
pub struct SupportedLanguage {
    pub language_code: String,
    pub display_name: Option<String>,
    pub support_source: bool,
    pub support_target: bool,
}

/// The member names of the wire form of `SupportedLanguage` differ from one another.
proof fn lemma_supported_language_names()
    ensures
        "displayName"@ != "languageCode"@,
        "supportSource"@ != "languageCode"@,
        "supportSource"@ != "displayName"@,
        "supportTarget"@ != "languageCode"@,
        "supportTarget"@ != "displayName"@,
        "supportTarget"@ != "supportSource"@,
{
    reveal_strlit("languageCode");
    reveal_strlit("displayName");
    reveal_strlit("supportSource");
    reveal_strlit("supportTarget");
    assert("displayName"@.len() != "languageCode"@.len());
    assert("supportSource"@.len() != "languageCode"@.len());
    assert("supportSource"@.len() != "displayName"@.len());
    assert("supportTarget"@.len() != "languageCode"@.len());
    assert("supportTarget"@.len() != "displayName"@.len());
    assert("supportTarget"@[7] != "supportSource"@[7]);
}

impl JsonSchema for SupportedLanguage {
    open spec fn represents(j: Json, v: SupportedLanguage) -> bool {
        &&& j is Object
        &&& str_rep(member(j, "languageCode"@), v.language_code)
        &&& opt_str_rep(member(j, "displayName"@), v.display_name)
        &&& bool_rep(member(j, "supportSource"@), v.support_source)
        &&& bool_rep(member(j, "supportTarget"@), v.support_target)
    }
}

impl FromJson for SupportedLanguage {
    open spec fn accepts(j: Json) -> bool {
        &&& j is Object
        &&& accepts_str(member(j, "languageCode"@))
        &&& accepts_opt_str(member(j, "displayName"@))
        &&& accepts_bool(member(j, "supportSource"@))
        &&& accepts_bool(member(j, "supportTarget"@))
    }

    fn from_json(j: Json) -> (r: Option<SupportedLanguage>) {
        match j {
            Json::Object(members) => SupportedLanguage::from_members(members),
            _ => None,
        }
    }
}

impl SupportedLanguage {
    fn from_members(members: Vec<(String, Json)>) -> (r: Option<SupportedLanguage>)
        ensures
            r is Some == SupportedLanguage::accepts(Json::Object(members)),
            r is Some ==> SupportedLanguage::represents(Json::Object(members), r.unwrap()),
    {
        let ghost f0 = members@;
        let mut fields = members;
        proof {
            lemma_supported_language_names();
        }

        let language_code_m = take_member(&mut fields, "languageCode");
        let display_name_m = take_member(&mut fields, "displayName");
        let support_source_m = take_member(&mut fields, "supportSource");
        let support_target_m = take_member(&mut fields, "supportTarget");
        assert(language_code_m == lookup_from(f0, "languageCode"@, 0));
        assert(display_name_m == lookup_from(f0, "displayName"@, 0));
        assert(support_source_m == lookup_from(f0, "supportSource"@, 0));
        assert(support_target_m == lookup_from(f0, "supportTarget"@, 0));
        let language_code = match req_string(language_code_m) {
            Some(x) => x,
            None => {
                return None;
            },
        };
        let display_name = match opt_string(display_name_m) {
            Some(x) => x,
            None => {
                return None;
            },
        };
        let support_source = match req_bool(support_source_m) {
            Some(x) => x,
            None => {
                return None;
            },
        };
        let support_target = match req_bool(support_target_m) {
            Some(x) => x,
            None => {
                return None;
            },
        };
        Some(SupportedLanguage { language_code, display_name, support_source, support_target })
    }
}

/// The languages the service supports.
#[derive(Debug)]
pub struct SupportedLanguages {
    pub languages: Vec<SupportedLanguage>,
}


impl JsonSchema for SupportedLanguages {
    open spec fn represents(j: Json, v: SupportedLanguages) -> bool {
        &&& j is Object
        &&& list_rep(member(j, "languages"@), v.languages@)
    }
}

impl FromJson for SupportedLanguages {
    open spec fn accepts(j: Json) -> bool {
        &&& j is Object
        &&& accepts_list::<SupportedLanguage>(member(j, "languages"@))
    }

    fn from_json(j: Json) -> (r: Option<SupportedLanguages>) {
        match j {
            Json::Object(members) => SupportedLanguages::from_members(members),
            _ => None,
        }
    }
}

impl SupportedLanguages {
    fn from_members(members: Vec<(String, Json)>) -> (r: Option<SupportedLanguages>)
        ensures
            r is Some == SupportedLanguages::accepts(Json::Object(members)),
            r is Some ==> SupportedLanguages::represents(Json::Object(members), r.unwrap()),
    {
        let ghost f0 = members@;
        let mut fields = members;
        

        let languages_m = take_member(&mut fields, "languages");
        assert(languages_m == lookup_from(f0, "languages"@, 0));
        let languages = match list_from_json::<SupportedLanguage>(languages_m) {
            Some(x) => x,
            None => {
                return None;
            },
        };
        Some(SupportedLanguages { languages })
    }
}

/// One translated text.
#[derive(Debug)]
pub struct Translation {
    pub translated_text: String,
    pub model: Option<String>,
    pub detected_language_code: Option<String>,
    pub glossary_config: Option<TranslateTextGlossaryConfig>,
}

/// The member names of the wire form of `Translation` differ from one another.
proof fn lemma_translation_names()
    ensures
        "model"@ != "translatedText"@,
        "detectedLanguageCode"@ != "translatedText"@,
        "detectedLanguageCode"@ != "model"@,
        "glossaryConfig"@ != "translatedText"@,
        "glossaryConfig"@ != "model"@,
        "glossaryConfig"@ != "detectedLanguageCode"@,
{
    reveal_strlit("translatedText");
    reveal_strlit("model");
    reveal_strlit("detectedLanguageCode");
    reveal_strlit("glossaryConfig");
    assert("model"@.len() != "translatedText"@.len());
    assert("detectedLanguageCode"@.len() != "translatedText"@.len());
    assert("detectedLanguageCode"@.len() != "model"@.len());
    assert("glossaryConfig"@[0] != "translatedText"@[0]);
    assert("glossaryConfig"@.len() != "model"@.len());
    assert("glossaryConfig"@.len() != "detectedLanguageCode"@.len());
}

impl JsonSchema for Translation {
    open spec fn represents(j: Json, v: Translation) -> bool {
        &&& j is Object
        &&& str_rep(member(j, "translatedText"@), v.translated_text)
        &&& opt_str_rep(member(j, "model"@), v.model)
        &&& opt_str_rep(member(j, "detectedLanguageCode"@), v.detected_language_code)
        &&& opt_obj_rep(member(j, "glossaryConfig"@), v.glossary_config)
    }
}

impl FromJson for Translation {
    open spec fn accepts(j: Json) -> bool {
        &&& j is Object
        &&& accepts_str(member(j, "translatedText"@))
        &&& accepts_opt_str(member(j, "model"@))
        &&& accepts_opt_str(member(j, "detectedLanguageCode"@))
        &&& accepts_opt_obj::<TranslateTextGlossaryConfig>(member(j, "glossaryConfig"@))
    }

    fn from_json(j: Json) -> (r: Option<Translation>) {
        match j {
            Json::Object(members) => Translation::from_members(members),
            _ => None,
        }
    }
}

impl Translation {
    fn from_members(members: Vec<(String, Json)>) -> (r: Option<Translation>)
        ensures
            r is Some == Translation::accepts(Json::Object(members)),
            r is Some ==> Translation::represents(Json::Object(members), r.unwrap()),
    {
        let ghost f0 = members@;
        let mut fields = members;
        proof {
            lemma_translation_names();
        }

        let translated_text_m = take_member(&mut fields, "translatedText");
        let model_m = take_member(&mut fields, "model");
        let detected_language_code_m = take_member(&mut fields, "detectedLanguageCode");
        let glossary_config_m = take_member(&mut fields, "glossaryConfig");
        assert(translated_text_m == lookup_from(f0, "translatedText"@, 0));
        assert(model_m == lookup_from(f0, "model"@, 0));
        assert(detected_language_code_m == lookup_from(f0, "detectedLanguageCode"@, 0));
        assert(glossary_config_m == lookup_from(f0, "glossaryConfig"@, 0));
        let translated_text = match req_string(translated_text_m) {
            Some(x) => x,
            None => {
                return None;
            },
        };
        let model = match opt_string(model_m) {
            Some(x) => x,
            None => {
                return None;
            },
        };
        let detected_language_code = match opt_string(detected_language_code_m) {
            Some(x) => x,
            None => {
                return None;
            },
        };
        let glossary_config = match opt_object::<TranslateTextGlossaryConfig>(glossary_config_m) {
            Some(x) => x,
            None => {
                return None;
            },
        };
        Some(Translation { translated_text, model, detected_language_code, glossary_config })
    }
}

/// The translations of a translate-text call, one per input text.
#[derive(Debug)]
pub struct TranslateTextResponse {
    pub translations: Vec<Translation>,
    pub glossary_translations: Option<Vec<Translation>>,
}

/// The member names of the wire form of `TranslateTextResponse` differ from one another.
proof fn lemma_translate_text_response_names()
    ensures
        "glossaryTranslations"@ != "translations"@,
{
    reveal_strlit("translations");
    reveal_strlit("glossaryTranslations");
    assert("glossaryTranslations"@.len() != "translations"@.len());
}

impl JsonSchema for TranslateTextResponse {
    open spec fn represents(j: Json, v: TranslateTextResponse) -> bool {
        &&& j is Object
        &&& list_rep(member(j, "translations"@), v.translations@)
        &&& opt_list_rep(member(j, "glossaryTranslations"@), v.glossary_translations)
    }
}

impl FromJson for TranslateTextResponse {
    open spec fn accepts(j: Json) -> bool {
        &&& j is Object
        &&& accepts_list::<Translation>(member(j, "translations"@))
        &&& accepts_opt_list::<Translation>(member(j, "glossaryTranslations"@))
    }

    fn from_json(j: Json) -> (r: Option<TranslateTextResponse>) {
        match j {
            Json::Object(members) => TranslateTextResponse::from_members(members),
            _ => None,
        }
    }
}

impl TranslateTextResponse {
    fn from_members(members: Vec<(String, Json)>) -> (r: Option<TranslateTextResponse>)
        ensures
            r is Some == TranslateTextResponse::accepts(Json::Object(members)),
            r is Some ==> TranslateTextResponse::represents(Json::Object(members), r.unwrap()),
    {
        let ghost f0 = members@;
        let mut fields = members;
        proof {
            lemma_translate_text_response_names();
        }

        let translations_m = take_member(&mut fields, "translations");
        let glossary_translations_m = take_member(&mut fields, "glossaryTranslations");
        assert(translations_m == lookup_from(f0, "translations"@, 0));
        assert(glossary_translations_m == lookup_from(f0, "glossaryTranslations"@, 0));
        let translations = match list_from_json::<Translation>(translations_m) {
            Some(x) => x,
            None => {
                return None;
            },
        };
        let glossary_translations = match opt_list::<Translation>(glossary_translations_m) {
            Some(x) => x,
            None => {
                return None;
            },
        };
        Some(TranslateTextResponse { translations, glossary_translations })
    }
}

/// One page of long-running operations.
#[derive(Debug)]
pub struct ListOperationsResponse {
    pub operations: Vec<Operation>,
    pub next_page_token: Option<String>,
}

/// The member names of the wire form of `ListOperationsResponse` differ from one another.
proof fn lemma_list_operations_response_names()
    ensures
        "nextPageToken"@ != "operations"@,
{
    reveal_strlit("operations");
    reveal_strlit("nextPageToken");
    assert("nextPageToken"@.len() != "operations"@.len());
}

impl JsonSchema for ListOperationsResponse {
    open spec fn represents(j: Json, v: ListOperationsResponse) -> bool {
        &&& j is Object
        &&& list_rep(member(j, "operations"@), v.operations@)
        &&& opt_str_rep(member(j, "nextPageToken"@), v.next_page_token)
    }
}

impl FromJson for ListOperationsResponse {
    open spec fn accepts(j: Json) -> bool {
        &&& j is Object
        &&& accepts_list::<Operation>(member(j, "operations"@))
        &&& accepts_opt_str(member(j, "nextPageToken"@))
    }

    fn from_json(j: Json) -> (r: Option<ListOperationsResponse>) {
        match j {
            Json::Object(members) => ListOperationsResponse::from_members(members),
            _ => None,
        }
    }
}

impl ListOperationsResponse {
    fn from_members(members: Vec<(String, Json)>) -> (r: Option<ListOperationsResponse>)
        ensures
            r is Some == ListOperationsResponse::accepts(Json::Object(members)),
            r is Some ==> ListOperationsResponse::represents(Json::Object(members), r.unwrap()),
    {
        let ghost f0 = members@;
        let mut fields = members;
        proof {
            lemma_list_operations_response_names();
        }

        let operations_m = take_member(&mut fields, "operations");
        let next_page_token_m = take_member(&mut fields, "nextPageToken");
        assert(operations_m == lookup_from(f0, "operations"@, 0));
        assert(next_page_token_m == lookup_from(f0, "nextPageToken"@, 0));
        let operations = match list_from_json::<Operation>(operations_m) {
            Some(x) => x,
            None => {
                return None;
            },
        };
        let next_page_token = match opt_string(next_page_token_m) {
            Some(x) => x,
            None => {
                return None;
            },
        };
        Some(ListOperationsResponse { operations, next_page_token })
    }
}

/// A language detected in a text, and the confidence of its detection.
#[derive(Debug)]
pub struct DetectLanguageItem {
    pub language_code: String,
    /// The confidence, a number between 0 and 1, as the service wrote it.
    pub confidence: String,
}

/// The member names of the wire form of `DetectLanguageItem` differ from one another.
proof fn lemma_detect_language_item_names()
    ensures
        "confidence"@ != "languageCode"@,
{
    reveal_strlit("languageCode");
    reveal_strlit("confidence");
    assert("confidence"@.len() != "languageCode"@.len());
}

impl JsonSchema for DetectLanguageItem {
    open spec fn represents(j: Json, v: DetectLanguageItem) -> bool {
        &&& j is Object
        &&& str_rep(member(j, "languageCode"@), v.language_code)
        &&& num_rep(member(j, "confidence"@), v.confidence)
    }
}

impl FromJson for DetectLanguageItem {
    open spec fn accepts(j: Json) -> bool {
        &&& j is Object
        &&& accepts_str(member(j, "languageCode"@))
        &&& accepts_num(member(j, "confidence"@))
    }

    fn from_json(j: Json) -> (r: Option<DetectLanguageItem>) {
        match j {
            Json::Object(members) => DetectLanguageItem::from_members(members),
            _ => None,
        }
    }
}

impl DetectLanguageItem {
    fn from_members(members: Vec<(String, Json)>) -> (r: Option<DetectLanguageItem>)
        ensures
            r is Some == DetectLanguageItem::accepts(Json::Object(members)),
            r is Some ==> DetectLanguageItem::represents(Json::Object(members), r.unwrap()),
    {
        let ghost f0 = members@;
        let mut fields = members;
        proof {
            lemma_detect_language_item_names();
        }

        let language_code_m = take_member(&mut fields, "languageCode");
        let confidence_m = take_member(&mut fields, "confidence");
        assert(language_code_m == lookup_from(f0, "languageCode"@, 0));
        assert(confidence_m == lookup_from(f0, "confidence"@, 0));
        let language_code = match req_string(language_code_m) {
            Some(x) => x,
            None => {
                return None;
            },
        };
        let confidence = match req_number(confidence_m) {
            Some(x) => x,
            None => {
                return None;
            },
        };
        Some(DetectLanguageItem { language_code, confidence })
    }
}

/// The languages detected in a text, the most probable first.
#[derive(Debug)]
pub struct DetectLanguageResponse {
    pub languages: Vec<DetectLanguageItem>,
}


impl JsonSchema for DetectLanguageResponse {
    open spec fn represents(j: Json, v: DetectLanguageResponse) -> bool {
        &&& j is Object
        &&& list_rep(member(j, "languages"@), v.languages@)
    }
}

impl FromJson for DetectLanguageResponse {
    open spec fn accepts(j: Json) -> bool {
        &&& j is Object
        &&& accepts_list::<DetectLanguageItem>(member(j, "languages"@))
    }

    fn from_json(j: Json) -> (r: Option<DetectLanguageResponse>) {
        match j {
            Json::Object(members) => DetectLanguageResponse::from_members(members),
            _ => None,
        }
    }
}

impl DetectLanguageResponse {
    fn from_members(members: Vec<(String, Json)>) -> (r: Option<DetectLanguageResponse>)
        ensures
            r is Some == DetectLanguageResponse::accepts(Json::Object(members)),
            r is Some ==> DetectLanguageResponse::represents(Json::Object(members), r.unwrap()),
    {
        let ghost f0 = members@;
        let mut fields = members;
        

        let languages_m = take_member(&mut fields, "languages");
        assert(languages_m == lookup_from(f0, "languages"@, 0));
        let languages = match list_from_json::<DetectLanguageItem>(languages_m) {
            Some(x) => x,
            None => {
                return None;
            },
        };
        Some(DetectLanguageResponse { languages })
    }
}

/// A request to detect the language of a text.
#[derive(Debug)]
pub struct DetectLanguageRequest {
    pub model: Option<String>,
    pub mime_type: Option<MimeType>,
    /// User-defined metadata, each key at most once.
    pub labels: Option<Vec<(String, String)>>,
    pub content: String,
}

/// The member names of the wire form of `DetectLanguageRequest` differ from one another.
proof fn lemma_detect_language_request_names()
    ensures
        "mimeType"@ != "model"@,
        "labels"@ != "model"@,
        "labels"@ != "mimeType"@,
        "content"@ != "model"@,
        "content"@ != "mimeType"@,
        "content"@ != "labels"@,
{
    reveal_strlit("model");
    reveal_strlit("mimeType");
    reveal_strlit("labels");
    reveal_strlit("content");
    assert("mimeType"@.len() != "model"@.len());
    assert("labels"@.len() != "model"@.len());
    assert("labels"@.len() != "mimeType"@.len());
    assert("content"@.len() != "model"@.len());
    assert("content"@.len() != "mimeType"@.len());
    assert("content"@.len() != "labels"@.len());
}

impl JsonSchema for DetectLanguageRequest {
    open spec fn represents(j: Json, v: DetectLanguageRequest) -> bool {
        &&& j is Object
        &&& opt_str_rep(member(j, "model"@), v.model)
        &&& opt_mime_rep(member(j, "mimeType"@), v.mime_type)
        &&& opt_str_map_rep(member(j, "labels"@), v.labels)
        &&& str_rep(member(j, "content"@), v.content)
    }
}

impl ToJson for DetectLanguageRequest {
    open spec fn wire_keys(v: DetectLanguageRequest) -> Seq<Seq<char>> {
        (if v.model is Some { seq!["model"@] } else { seq![] })
            + (if v.mime_type is Some { seq!["mimeType"@] } else { seq![] })
            + (if v.labels is Some { seq!["labels"@] } else { seq![] })
            + seq!["content"@]
    }

    open spec fn written(j: Json, v: DetectLanguageRequest) -> bool {
        &&& j is Object
        &&& object_keys(j) == DetectLanguageRequest::wire_keys(v)
        &&& without_nulls(j)
        &&& opt_str_rep(member(j, "model"@), v.model)
        &&& opt_mime_rep(member(j, "mimeType"@), v.mime_type)
        &&& opt_str_map_rep(member(j, "labels"@), v.labels)
        &&& str_rep(member(j, "content"@), v.content)
    }

    fn to_json(&self) -> (r: Json) {
        proof {
            lemma_detect_language_request_names();
        }
        let mut fields: Vec<(String, Json)> = Vec::new();
        match &self.model {
            Some(x) => {
                push_member(&mut fields, "model", Json::Str(x.clone()));
            },
            None => {},
        }
        match self.mime_type {
            Some(x) => {
                push_member(&mut fields, "mimeType", Json::Str(String::from_str(x.as_str())));
            },
            None => {},
        }
        match &self.labels {
            Some(x) => {
                push_member(&mut fields, "labels", str_map_to_json(x));
            },
            None => {},
        }
        push_member(&mut fields, "content", Json::Str(self.content.clone()));
        assert(keys_of(fields@) =~= DetectLanguageRequest::wire_keys(*self));
        Json::Object(fields)
    }
}

/// A request to translate texts.
#[derive(Debug)]
pub struct TranslateTextRequest {
    pub contents: Vec<String>,
    pub mime_type: Option<MimeType>,
    pub source_language_code: Option<String>,
    pub target_language_code: String,
    pub model: Option<String>,
    pub glossary_config: Option<TranslateTextGlossaryConfig>,
    /// User-defined metadata, each key at most once.
    pub labels: Option<Vec<(String, String)>>,
}

/// The member names of the wire form of `TranslateTextRequest` differ from one another.
proof fn lemma_translate_text_request_names()
    ensures
        "mimeType"@ != "contents"@,
        "sourceLanguageCode"@ != "contents"@,
        "sourceLanguageCode"@ != "mimeType"@,
        "targetLanguageCode"@ != "contents"@,
        "targetLanguageCode"@ != "mimeType"@,
        "targetLanguageCode"@ != "sourceLanguageCode"@,
        "model"@ != "contents"@,
        "model"@ != "mimeType"@,
        "model"@ != "sourceLanguageCode"@,
        "model"@ != "targetLanguageCode"@,
        "glossaryConfig"@ != "contents"@,
        "glossaryConfig"@ != "mimeType"@,
        "glossaryConfig"@ != "sourceLanguageCode"@,
        "glossaryConfig"@ != "targetLanguageCode"@,
        "glossaryConfig"@ != "model"@,
        "labels"@ != "contents"@,
        "labels"@ != "mimeType"@,
        "labels"@ != "sourceLanguageCode"@,
        "labels"@ != "targetLanguageCode"@,
        "labels"@ != "model"@,
        "labels"@ != "glossaryConfig"@,
{
    reveal_strlit("contents");
    reveal_strlit("mimeType");
    reveal_strlit("sourceLanguageCode");
    reveal_strlit("targetLanguageCode");
    reveal_strlit("model");
    reveal_strlit("glossaryConfig");
    reveal_strlit("labels");
    assert("mimeType"@[0] != "contents"@[0]);
    assert("sourceLanguageCode"@.len() != "contents"@.len());
    assert("sourceLanguageCode"@.len() != "mimeType"@.len());
    assert("targetLanguageCode"@.len() != "contents"@.len());
    assert("targetLanguageCode"@.len() != "mimeType"@.len());
    assert("targetLanguageCode"@[0] != "sourceLanguageCode"@[0]);
    assert("model"@.len() != "contents"@.len());
    assert("model"@.len() != "mimeType"@.len());
    assert("model"@.len() != "sourceLanguageCode"@.len());
    assert("model"@.len() != "targetLanguageCode"@.len());
    assert("glossaryConfig"@.len() != "contents"@.len());
    assert("glossaryConfig"@.len() != "mimeType"@.len());
    assert("glossaryConfig"@.len() != "sourceLanguageCode"@.len());
    assert("glossaryConfig"@.len() != "targetLanguageCode"@.len());
    assert("glossaryConfig"@.len() != "model"@.len());
    assert("labels"@.len() != "contents"@.len());
    assert("labels"@.len() != "mimeType"@.len());
    assert("labels"@.len() != "sourceLanguageCode"@.len());
    assert("labels"@.len() != "targetLanguageCode"@.len());
    assert("labels"@.len() != "model"@.len());
    assert("labels"@.len() != "glossaryConfig"@.len());
}

impl JsonSchema for TranslateTextRequest {
    open spec fn represents(j: Json, v: TranslateTextRequest) -> bool {
        &&& j is Object
        &&& str_list_rep(member(j, "contents"@), v.contents@)
        &&& opt_mime_rep(member(j, "mimeType"@), v.mime_type)
        &&& opt_str_rep(member(j, "sourceLanguageCode"@), v.source_language_code)
        &&& str_rep(member(j, "targetLanguageCode"@), v.target_language_code)
        &&& opt_str_rep(member(j, "model"@), v.model)
        &&& opt_obj_rep(member(j, "glossaryConfig"@), v.glossary_config)
        &&& opt_str_map_rep(member(j, "labels"@), v.labels)
    }
}

impl ToJson for TranslateTextRequest {
    open spec fn wire_keys(v: TranslateTextRequest) -> Seq<Seq<char>> {
        seq!["contents"@]
            + (if v.mime_type is Some { seq!["mimeType"@] } else { seq![] })
            + (if v.source_language_code is Some { seq!["sourceLanguageCode"@] } else { seq![] })
            + seq!["targetLanguageCode"@]
            + (if v.model is Some { seq!["model"@] } else { seq![] })
            + (if v.glossary_config is Some { seq!["glossaryConfig"@] } else { seq![] })
            + (if v.labels is Some { seq!["labels"@] } else { seq![] })
    }

    open spec fn written(j: Json, v: TranslateTextRequest) -> bool {
        &&& j is Object
        &&& object_keys(j) == TranslateTextRequest::wire_keys(v)
        &&& without_nulls(j)
        &&& str_list_rep(member(j, "contents"@), v.contents@)
        &&& opt_mime_rep(member(j, "mimeType"@), v.mime_type)
        &&& opt_str_rep(member(j, "sourceLanguageCode"@), v.source_language_code)
        &&& str_rep(member(j, "targetLanguageCode"@), v.target_language_code)
        &&& opt_str_rep(member(j, "model"@), v.model)
        &&& opt_obj_written(member(j, "glossaryConfig"@), v.glossary_config)
        &&& opt_str_map_rep(member(j, "labels"@), v.labels)
    }

    fn to_json(&self) -> (r: Json) {
        proof {
            lemma_translate_text_request_names();
        }
        let mut fields: Vec<(String, Json)> = Vec::new();
        push_member(&mut fields, "contents", strings_to_json(&self.contents));
        match self.mime_type {
            Some(x) => {
                push_member(&mut fields, "mimeType", Json::Str(String::from_str(x.as_str())));
            },
            None => {},
        }
        match &self.source_language_code {
            Some(x) => {
                push_member(&mut fields, "sourceLanguageCode", Json::Str(x.clone()));
            },
            None => {},
        }
        push_member(&mut fields, "targetLanguageCode", Json::Str(self.target_language_code.clone()));
        match &self.model {
            Some(x) => {
                push_member(&mut fields, "model", Json::Str(x.clone()));
            },
            None => {},
        }
        match &self.glossary_config {
            Some(x) => {
                push_member(&mut fields, "glossaryConfig", x.to_json());
            },
            None => {},
        }
        match &self.labels {
            Some(x) => {
                push_member(&mut fields, "labels", str_map_to_json(x));
            },
            None => {},
        }
        let ghost r = Json::Object(fields);
        assert(str_list_rep(member(r, "contents"@), self.contents@));
        assert(opt_mime_rep(member(r, "mimeType"@), self.mime_type));
        assert(opt_str_rep(member(r, "sourceLanguageCode"@), self.source_language_code));
        assert(str_rep(member(r, "targetLanguageCode"@), self.target_language_code));
        assert(opt_str_rep(member(r, "model"@), self.model));
        assert(opt_obj_rep(member(r, "glossaryConfig"@), self.glossary_config));
        assert(opt_str_map_rep(member(r, "labels"@), self.labels));
        assert(keys_of(fields@) =~= TranslateTextRequest::wire_keys(*self));
        Json::Object(fields)
    }
}

/// One input of a batch translation.
#[derive(Debug)]
pub struct BatchTranslateTextInputConfig {
    pub mime_type: Option<MimeType>,
    pub gcs_source: GcsSource,
}

/// The member names of the wire form of `BatchTranslateTextInputConfig` differ from one another.
proof fn lemma_batch_translate_text_input_config_names()
    ensures
        "gcsSource"@ != "mimeType"@,
{
    reveal_strlit("mimeType");
    reveal_strlit("gcsSource");
    assert("gcsSource"@.len() != "mimeType"@.len());
}

impl JsonSchema for BatchTranslateTextInputConfig {
    open spec fn represents(j: Json, v: BatchTranslateTextInputConfig) -> bool {
        &&& j is Object
        &&& opt_mime_rep(member(j, "mimeType"@), v.mime_type)
        &&& obj_rep(member(j, "gcsSource"@), v.gcs_source)
    }
}

impl ToJson for BatchTranslateTextInputConfig {
    open spec fn wire_keys(v: BatchTranslateTextInputConfig) -> Seq<Seq<char>> {
        (if v.mime_type is Some { seq!["mimeType"@] } else { seq![] })
            + seq!["gcsSource"@]
    }

    open spec fn written(j: Json, v: BatchTranslateTextInputConfig) -> bool {
        &&& j is Object
        &&& object_keys(j) == BatchTranslateTextInputConfig::wire_keys(v)
        &&& without_nulls(j)
        &&& opt_mime_rep(member(j, "mimeType"@), v.mime_type)
        &&& obj_written(member(j, "gcsSource"@), v.gcs_source)
    }

    fn to_json(&self) -> (r: Json) {
        proof {
            lemma_batch_translate_text_input_config_names();
        }
        let mut fields: Vec<(String, Json)> = Vec::new();
        match self.mime_type {
            Some(x) => {
                push_member(&mut fields, "mimeType", Json::Str(String::from_str(x.as_str())));
            },
            None => {},
        }
        push_member(&mut fields, "gcsSource", self.gcs_source.to_json());
        assert(keys_of(fields@) =~= BatchTranslateTextInputConfig::wire_keys(*self));
        Json::Object(fields)
    }
}

/// Where a batch translation writes its output.
#[derive(Debug)]
pub struct BatchTranslateTextOutputConfig {
    pub gcs_destination: GcsDestination,
}


impl JsonSchema for BatchTranslateTextOutputConfig {
    open spec fn represents(j: Json, v: BatchTranslateTextOutputConfig) -> bool {
        &&& j is Object
        &&& obj_rep(member(j, "gcsDestination"@), v.gcs_destination)
    }
}

impl ToJson for BatchTranslateTextOutputConfig {
    open spec fn wire_keys(v: BatchTranslateTextOutputConfig) -> Seq<Seq<char>> {
        seq!["gcsDestination"@]
    }

    open spec fn written(j: Json, v: BatchTranslateTextOutputConfig) -> bool {
        &&& j is Object
        &&& object_keys(j) == BatchTranslateTextOutputConfig::wire_keys(v)
        &&& without_nulls(j)
        &&& obj_written(member(j, "gcsDestination"@), v.gcs_destination)
    }

    fn to_json(&self) -> (r: Json) {
        
        let mut fields: Vec<(String, Json)> = Vec::new();
        push_member(&mut fields, "gcsDestination", self.gcs_destination.to_json());
        assert(keys_of(fields@) =~= BatchTranslateTextOutputConfig::wire_keys(*self));
        Json::Object(fields)
    }
}

/// A request to translate files in batch.
#[derive(Debug)]
pub struct BatchTranslateTextRequest {
    pub source_language_code: String,
    pub target_language_codes: Vec<String>,
    /// The model of each target language code.
    pub models: Option<Vec<(String, String)>>,
    pub input_configs: Vec<BatchTranslateTextInputConfig>,
    pub output_config: BatchTranslateTextOutputConfig,
    /// The glossary of each target language code.
    pub glossaries: Option<Vec<(String, TranslateTextGlossaryConfig)>>,
    /// User-defined metadata, each key at most once.
    pub labels: Option<Vec<(String, String)>>,
}

/// The member names of the wire form of `BatchTranslateTextRequest` differ from one another.
proof fn lemma_batch_translate_text_request_names()
    ensures
        "targetLanguageCodes"@ != "sourceLanguageCode"@,
        "models"@ != "sourceLanguageCode"@,
        "models"@ != "targetLanguageCodes"@,
        "inputConfigs"@ != "sourceLanguageCode"@,
        "inputConfigs"@ != "targetLanguageCodes"@,
        "inputConfigs"@ != "models"@,
        "outputConfig"@ != "sourceLanguageCode"@,
        "outputConfig"@ != "targetLanguageCodes"@,
        "outputConfig"@ != "models"@,
        "outputConfig"@ != "inputConfigs"@,
        "glossaries"@ != "sourceLanguageCode"@,
        "glossaries"@ != "targetLanguageCodes"@,
        "glossaries"@ != "models"@,
        "glossaries"@ != "inputConfigs"@,
        "glossaries"@ != "outputConfig"@,
        "labels"@ != "sourceLanguageCode"@,
        "labels"@ != "targetLanguageCodes"@,
        "labels"@ != "models"@,
        "labels"@ != "inputConfigs"@,
        "labels"@ != "outputConfig"@,
        "labels"@ != "glossaries"@,
{
    reveal_strlit("sourceLanguageCode");
    reveal_strlit("targetLanguageCodes");
    reveal_strlit("models");
    reveal_strlit("inputConfigs");
    reveal_strlit("outputConfig");
    reveal_strlit("glossaries");
    reveal_strlit("labels");
    assert("targetLanguageCodes"@.len() != "sourceLanguageCode"@.len());
    assert("models"@.len() != "sourceLanguageCode"@.len());
    assert("models"@.len() != "targetLanguageCodes"@.len());
    assert("inputConfigs"@.len() != "sourceLanguageCode"@.len());
    assert("inputConfigs"@.len() != "targetLanguageCodes"@.len());
    assert("inputConfigs"@.len() != "models"@.len());
    assert("outputConfig"@.len() != "sourceLanguageCode"@.len());
    assert("outputConfig"@.len() != "targetLanguageCodes"@.len());
    assert("outputConfig"@.len() != "models"@.len());
    assert("outputConfig"@[0] != "inputConfigs"@[0]);
    assert("glossaries"@.len() != "sourceLanguageCode"@.len());
    assert("glossaries"@.len() != "targetLanguageCodes"@.len());
    assert("glossaries"@.len() != "models"@.len());
    assert("glossaries"@.len() != "inputConfigs"@.len());
    assert("glossaries"@.len() != "outputConfig"@.len());
    assert("labels"@.len() != "sourceLanguageCode"@.len());
    assert("labels"@.len() != "targetLanguageCodes"@.len());
    assert("labels"@[0] != "models"@[0]);
    assert("labels"@.len() != "inputConfigs"@.len());
    assert("labels"@.len() != "outputConfig"@.len());
    assert("labels"@.len() != "glossaries"@.len());
}

impl JsonSchema for BatchTranslateTextRequest {
    open spec fn represents(j: Json, v: BatchTranslateTextRequest) -> bool {
        &&& j is Object
        &&& str_rep(member(j, "sourceLanguageCode"@), v.source_language_code)
        &&& str_list_rep(member(j, "targetLanguageCodes"@), v.target_language_codes@)
        &&& opt_str_map_rep(member(j, "models"@), v.models)
        &&& list_rep(member(j, "inputConfigs"@), v.input_configs@)
        &&& obj_rep(member(j, "outputConfig"@), v.output_config)
        &&& opt_obj_map_rep(member(j, "glossaries"@), v.glossaries)
        &&& opt_str_map_rep(member(j, "labels"@), v.labels)
    }
}

impl ToJson for BatchTranslateTextRequest {
    open spec fn wire_keys(v: BatchTranslateTextRequest) -> Seq<Seq<char>> {
        seq!["sourceLanguageCode"@]
            + seq!["targetLanguageCodes"@]
            + (if v.models is Some { seq!["models"@] } else { seq![] })
            + seq!["inputConfigs"@]
            + seq!["outputConfig"@]
            + (if v.glossaries is Some { seq!["glossaries"@] } else { seq![] })
            + (if v.labels is Some { seq!["labels"@] } else { seq![] })
    }

    open spec fn written(j: Json, v: BatchTranslateTextRequest) -> bool {
        &&& j is Object
        &&& object_keys(j) == BatchTranslateTextRequest::wire_keys(v)
        &&& without_nulls(j)
        &&& str_rep(member(j, "sourceLanguageCode"@), v.source_language_code)
        &&& str_list_rep(member(j, "targetLanguageCodes"@), v.target_language_codes@)
        &&& opt_str_map_rep(member(j, "models"@), v.models)
        &&& list_written(member(j, "inputConfigs"@), v.input_configs@)
        &&& obj_written(member(j, "outputConfig"@), v.output_config)
        &&& opt_obj_map_written(member(j, "glossaries"@), v.glossaries)
        &&& opt_str_map_rep(member(j, "labels"@), v.labels)
    }

    fn to_json(&self) -> (r: Json) {
        proof {
            lemma_batch_translate_text_request_names();
        }
        let mut fields: Vec<(String, Json)> = Vec::new();
        push_member(&mut fields, "sourceLanguageCode", Json::Str(self.source_language_code.clone()));
        push_member(&mut fields, "targetLanguageCodes", strings_to_json(&self.target_language_codes));
        match &self.models {
            Some(x) => {
                push_member(&mut fields, "models", str_map_to_json(x));
            },
            None => {},
        }
        push_member(&mut fields, "inputConfigs", list_to_json(&self.input_configs));
        push_member(&mut fields, "outputConfig", self.output_config.to_json());
        match &self.glossaries {
            Some(x) => {
                push_member(&mut fields, "glossaries", map_to_json(x));
            },
            None => {},
        }
        match &self.labels {
            Some(x) => {
                push_member(&mut fields, "labels", str_map_to_json(x));
            },
            None => {},
        }
        let ghost r = Json::Object(fields);
        assert(str_rep(member(r, "sourceLanguageCode"@), self.source_language_code));
        assert(str_list_rep(member(r, "targetLanguageCodes"@), self.target_language_codes@));
        assert(opt_str_map_rep(member(r, "models"@), self.models));
        assert(list_rep(member(r, "inputConfigs"@), self.input_configs@));
        assert(obj_rep(member(r, "outputConfig"@), self.output_config));
        assert(opt_obj_map_rep(member(r, "glossaries"@), self.glossaries));
        assert(opt_str_map_rep(member(r, "labels"@), self.labels));
        assert(keys_of(fields@) =~= BatchTranslateTextRequest::wire_keys(*self));
        Json::Object(fields)
    }
}

impl Glossary {
    /// A unidirectional glossary to be created: only its name, its input
    /// and its language pair are set.
    pub fn new(name: String, input_config: GlossaryInputConfig, language_pair: LanguageCodePair) -> (r: Glossary)
        ensures
            r.name == name,
            r.input_config == input_config,
            r.entry_count is None,
            r.submit_time is None,
            r.end_time is None,
            r.language_pair == Some(language_pair),
            r.language_codes_set is None,
    {
        Glossary {
            name,
            input_config,
            entry_count: None,
            submit_time: None,
            end_time: None,
            language_pair: Some(language_pair),
            language_codes_set: None,
        }
    }
}

/// Reading back the wire form of a Cloud Storage source succeeds and gives
/// that same source.
pub proof fn lemma_gcs_source_round_trip(j: Json, v: GcsSource, w: GcsSource)
    requires
        GcsSource::represents(j, v),
    ensures
        GcsSource::accepts(j),
        GcsSource::represents(j, w) ==> w == v,
{
}

/// Reading back the wire form of a glossary configuration succeeds and
/// gives that same configuration.
pub proof fn lemma_glossary_config_round_trip(j: Json, v: TranslateTextGlossaryConfig, w: TranslateTextGlossaryConfig)
    requires
        TranslateTextGlossaryConfig::represents(j, v),
    ensures
        TranslateTextGlossaryConfig::accepts(j),
        TranslateTextGlossaryConfig::represents(j, w) ==> w == v,
{
}

/// Reading back the wire form of a language pair succeeds and gives that
/// same pair.
pub proof fn lemma_language_pair_round_trip(j: Json, v: LanguageCodePair, w: LanguageCodePair)
    requires
        LanguageCodePair::represents(j, v),
    ensures
        LanguageCodePair::accepts(j),
        LanguageCodePair::represents(j, w) ==> w == v,
{
}

/// Reading back the wire form of a language set succeeds and gives the
/// same codes, in order.
pub proof fn lemma_language_set_round_trip(j: Json, v: LanguageCodesSet, w: LanguageCodesSet)
    requires
        LanguageCodesSet::represents(j, v),
    ensures
        LanguageCodesSet::accepts(j),
        LanguageCodesSet::represents(j, w) ==> w.language_codes@ == v.language_codes@,
{
    let m = member(j, "languageCodes"@);
    assert forall|i: int| 0 <= i < m.unwrap()->Array_0@.len() implies #[trigger] m.unwrap()->Array_0@[i] is Str by {
        assert(m.unwrap()->Array_0@[i] == Json::Str(v.language_codes@[i]));
    }
    if LanguageCodesSet::represents(j, w) {
        assert forall|i: int| 0 <= i < w.language_codes@.len() implies w.language_codes@[i]
            == v.language_codes@[i] by {
            assert(m.unwrap()->Array_0@[i] == Json::Str(v.language_codes@[i]));
            assert(m.unwrap()->Array_0@[i] == Json::Str(w.language_codes@[i]));
        }
        assert(w.language_codes@ =~= v.language_codes@);
    }
}

/// Reading back the wire form of a glossary input succeeds and gives that
/// same input.
pub proof fn lemma_glossary_input_round_trip(j: Json, v: GlossaryInputConfig, w: GlossaryInputConfig)
    requires
        GlossaryInputConfig::represents(j, v),
    ensures
        GlossaryInputConfig::accepts(j),
        GlossaryInputConfig::represents(j, w) ==> w == v,
{
    let m = member(j, "gcsSource"@);
    lemma_gcs_source_round_trip(m.unwrap(), v.gcs_source, w.gcs_source);
}

/// Reading back the wire form of a glossary succeeds and gives the same
/// glossary: every field equal, the codes of its language set equal in order.
pub proof fn lemma_glossary_round_trip(j: Json, v: Glossary, w: Glossary)
    requires
        Glossary::represents(j, v),
    ensures
        Glossary::accepts(j),
        Glossary::represents(j, w) ==> {
            &&& w.name == v.name
            &&& w.input_config == v.input_config
            &&& w.entry_count == v.entry_count
            &&& w.submit_time == v.submit_time
            &&& w.end_time == v.end_time
            &&& w.language_pair == v.language_pair
            &&& w.language_codes_set is Some == v.language_codes_set is Some
            &&& w.language_codes_set is Some ==> w.language_codes_set.unwrap().language_codes@
                == v.language_codes_set.unwrap().language_codes@
        },
{
    let input = member(j, "inputConfig"@);
    lemma_glossary_input_round_trip(input.unwrap(), v.input_config, w.input_config);
    let pair = member(j, "languagePair"@);
    if v.language_pair is Some {
        lemma_language_pair_round_trip(pair.unwrap(), v.language_pair.unwrap(), w.language_pair.unwrap());
    }
    let set = member(j, "languageCodesSet"@);
    if v.language_codes_set is Some {
        lemma_language_set_round_trip(set.unwrap(), v.language_codes_set.unwrap(), w.language_codes_set.unwrap());
    }
}

/// `m`, when present, holds each key once.
pub open spec fn opt_unique_keys<T>(m: Option<Vec<(String, T)>>) -> bool {
    match m {
        None => true,
        Some(pairs) => unique_keys(pairs@),
    }
}

/// Whether `m`, when present, holds each key once.
fn opt_has_unique_keys<T>(m: &Option<Vec<(String, T)>>) -> (r: bool)
    ensures
        r == opt_unique_keys(*m),
{
    match m {
        None => true,
        Some(pairs) => has_unique_keys(pairs),
    }
}

impl DetectLanguageRequest {
    /// Its labels hold each key once.
    pub open spec fn well_formed(&self) -> bool {
        opt_unique_keys(self.labels)
    }

    /// Whether its labels hold each key once.
    pub fn is_well_formed(&self) -> (r: bool)
        ensures
            r == self.well_formed(),
    {
        opt_has_unique_keys(&self.labels)
    }
}

impl TranslateTextRequest {
    /// Its labels hold each key once.
    pub open spec fn well_formed(&self) -> bool {
        opt_unique_keys(self.labels)
    }

    /// Whether its labels hold each key once.
    pub fn is_well_formed(&self) -> (r: bool)
        ensures
            r == self.well_formed(),
    {
        opt_has_unique_keys(&self.labels)
    }
}

impl BatchTranslateTextRequest {
    /// Its models, glossaries and labels each hold every target language code, or label key, once.
    pub open spec fn well_formed(&self) -> bool {
        opt_unique_keys(self.models) && opt_unique_keys(self.glossaries) && opt_unique_keys(self.labels)
    }

    /// Whether its models, glossaries and labels each hold every key once.
    pub fn is_well_formed(&self) -> (r: bool)
        ensures
            r == self.well_formed(),
    {
        opt_has_unique_keys(&self.models) && opt_has_unique_keys(&self.glossaries) && opt_has_unique_keys(&self.labels)
    }
}

} // verus!
