//! The per-invocation configuration and its decoder.
//!
//! The execution context hands the handler an opaque configuration document.
//! Before anything else happens, that document is decoded into an explicit,
//! statically validated [`InvocationConfig`]; any missing required field or
//! type mismatch aborts the invocation before the store is touched.

use vstd::prelude::*;

use crate::json::{
    entries_model, get_field, lemma_entries_model, lookup_field, JsonModel, JsonValue,
};

verus! {

/// The configuration a single invocation runs under.
#[derive(Debug, PartialEq)]
pub struct InvocationConfig {
    /// The table the record is deleted from.
    pub table_name: String,
    /// The name of the field used as the deletion key. Carried for
    /// documentation of intent; the delete call itself takes the whole key
    /// payload.
    pub primary_key: String,
    /// Auxiliary index-name lookups, carried for parity with sibling
    /// handlers that query by index. Entry order of the source document is
    /// kept.
    pub index_data: Vec<(String, String)>,
    /// Identity claims attached to the invocation; decoded but not enforced
    /// here (authorization happens upstream).
    pub token_claims: JsonValue,
}

/// The mathematical shape of a decoded configuration.
#[verifier::ext_equal]
pub struct ConfigModel {
    pub table_name: Seq<char>,
    pub primary_key: Seq<char>,
    pub index_data: Seq<(Seq<char>, Seq<char>)>,
    pub token_claims: JsonModel,
}

impl ConfigModel {
    /// What a configuration promises beyond its shape: the table name
    /// identifies a table, so it is not empty. Decoding does not enforce
    /// this; the store rejects an empty table name itself.
    pub open spec fn well_formed(self) -> bool {
        self.table_name.len() > 0
    }
}

/// The shape of a list of string-to-string pairs.
pub open spec fn string_pairs_model(pairs: Seq<(String, String)>) -> Seq<(Seq<char>, Seq<char>)> {
    Seq::new(pairs.len(), |i: int| (pairs[i].0@, pairs[i].1@))
}

impl View for InvocationConfig {
    type V = ConfigModel;

    open spec fn view(&self) -> ConfigModel {
        ConfigModel {
            table_name: self.table_name@,
            primary_key: self.primary_key@,
            index_data: string_pairs_model(self.index_data@),
            token_claims: self.token_claims@,
        }
    }
}

/// A required configuration field.
#[derive(Clone, Copy, PartialEq, Eq, Structural, Debug)]
pub enum Field {
    TableName,
    PrimaryKey,
    IndexData,
    TokenClaims,
}

/// Why a configuration document failed to decode.
#[derive(Clone, Copy, PartialEq, Eq, Structural, Debug)]
pub enum ConfigFault {
    /// The document is not a key/value object at all.
    NotAnObject,
    /// A required field is absent.
    MissingField(Field),
    /// A required field is present but has the wrong type.
    WrongFieldType(Field),
}

/// The index-data object turned into string pairs: every value must be text.
pub open spec fn parse_index_entries(entries: Seq<(Seq<char>, JsonModel)>) -> Option<
    Seq<(Seq<char>, Seq<char>)>,
>
    decreases entries,
{
    if entries.len() == 0 {
        Some(Seq::empty())
    } else {
        match parse_index_entries(entries.drop_last()) {
            Option::None => None,
            Option::Some(init) => match entries.last().1 {
                JsonModel::Text(t) => Some(init.push((entries.last().0, t))),
                _ => None,
            },
        }
    }
}

/// An entry list whose values are all text parses to exactly those pairs.
pub proof fn lemma_index_entries_all_text(
    m: Seq<(Seq<char>, JsonModel)>,
    p: Seq<(Seq<char>, Seq<char>)>,
)
    requires
        p.len() == m.len(),
        forall|j: int| 0 <= j < m.len() ==> #[trigger] m[j] == (p[j].0, JsonModel::Text(p[j].1)),
    ensures
        parse_index_entries(m) == Some(p),
    decreases m.len(),
{
    if m.len() > 0 {
        let k: int = m.len() - 1;
        assert(m[k] == (p[k].0, JsonModel::Text(p[k].1)));
        assert forall|j: int| 0 <= j < m.drop_last().len() implies #[trigger] m.drop_last()[j] == (
            p.drop_last()[j].0,
            JsonModel::Text(p.drop_last()[j].1),
        ) by {
            assert(m[j] == (p[j].0, JsonModel::Text(p[j].1)));
        }
        lemma_index_entries_all_text(m.drop_last(), p.drop_last());
        assert(p.drop_last().push(p.last()) =~= p);
    } else {
        assert(p =~= Seq::<(Seq<char>, Seq<char>)>::empty());
    }
}

/// An entry whose value is not text makes the whole index object fail.
pub proof fn lemma_index_entries_fault(m: Seq<(Seq<char>, JsonModel)>, i: int)
    requires
        0 <= i < m.len(),
        !(m[i].1 is Text),
    ensures
        parse_index_entries(m) is None,
    decreases m.len(),
{
    if i < m.len() - 1 {
        lemma_index_entries_fault(m.drop_last(), i);
    }
}

/// The decoding rule for a configuration document, stated mathematically:
/// the document must be an object holding text fields `table_name` and
/// `primary_key`, an object of text values under `index_data`, and any value
/// at all under `token_claims`. Fields are looked up by their first
/// occurrence; the checks run in that order, and the first failure names the
/// fault.
pub open spec fn parse_config(v: JsonModel) -> Result<ConfigModel, ConfigFault> {
    match v {
        JsonModel::Object(entries) => match lookup_field(entries, "table_name"@) {
            Option::None => Err(ConfigFault::MissingField(Field::TableName)),
            Option::Some(tv) => match tv {
                JsonModel::Text(table_name) => match lookup_field(entries, "primary_key"@) {
                    Option::None => Err(ConfigFault::MissingField(Field::PrimaryKey)),
                    Option::Some(pv) => match pv {
                        JsonModel::Text(primary_key) => match lookup_field(
                            entries,
                            "index_data"@,
                        ) {
                            Option::None => Err(ConfigFault::MissingField(Field::IndexData)),
                            Option::Some(iv) => match iv {
                                JsonModel::Object(ientries) => match parse_index_entries(
                                    ientries,
                                ) {
                                    Option::None => Err(
                                        ConfigFault::WrongFieldType(Field::IndexData),
                                    ),
                                    Option::Some(index_data) => match lookup_field(
                                        entries,
                                        "token_claims"@,
                                    ) {
                                        Option::None => Err(
                                            ConfigFault::MissingField(Field::TokenClaims),
                                        ),
                                        Option::Some(token_claims) => Ok(
                                            ConfigModel {
                                                table_name,
                                                primary_key,
                                                index_data,
                                                token_claims,
                                            },
                                        ),
                                    },
                                },
                                _ => Err(ConfigFault::WrongFieldType(Field::IndexData)),
                            },
                        },
                        _ => Err(ConfigFault::WrongFieldType(Field::PrimaryKey)),
                    },
                },
                _ => Err(ConfigFault::WrongFieldType(Field::TableName)),
            },
        },
        _ => Err(ConfigFault::NotAnObject),
    }
}

/// The model of a decoding result.
pub open spec fn config_result_model(res: Result<InvocationConfig, ConfigFault>) -> Result<
    ConfigModel,
    ConfigFault,
> {
    match res {
        Ok(c) => Ok(c@),
        Err(f) => Err(f),
    }
}

/// Decodes a configuration document, failing closed: the result is exactly
/// what [`parse_config`] says for the document's model.
#[verifier::loop_isolation(false)]
pub fn decode_config(v: &JsonValue) -> (res: Result<InvocationConfig, ConfigFault>)
    ensures
        config_result_model(res) == parse_config(v@),
{
    let entries = match v {
        JsonValue::Object(entries) => entries,
        _ => {
            return Err(ConfigFault::NotAnObject);
        },
    };
    let table_name = match get_field(entries, &"table_name".to_owned()) {
        Option::None => {
            return Err(ConfigFault::MissingField(Field::TableName));
        },
        Option::Some(tv) => match tv {
            JsonValue::Text(s) => s.clone(),
            _ => {
                return Err(ConfigFault::WrongFieldType(Field::TableName));
            },
        },
    };
    let primary_key = match get_field(entries, &"primary_key".to_owned()) {
        Option::None => {
            return Err(ConfigFault::MissingField(Field::PrimaryKey));
        },
        Option::Some(pv) => match pv {
            JsonValue::Text(s) => s.clone(),
            _ => {
                return Err(ConfigFault::WrongFieldType(Field::PrimaryKey));
            },
        },
    };
    let ientries = match get_field(entries, &"index_data".to_owned()) {
        Option::None => {
            return Err(ConfigFault::MissingField(Field::IndexData));
        },
        Option::Some(iv) => match iv {
            JsonValue::Object(ientries) => ientries,
            _ => {
                return Err(ConfigFault::WrongFieldType(Field::IndexData));
            },
        },
    };
    let mut index_data: Vec<(String, String)> = Vec::new();
    let n = ientries.len();
    let mut i: usize = 0;
    proof {
        lemma_entries_model(ientries@);
    }
    while i < n
        invariant
            i <= n,
            index_data@.len() == i as int,
            forall|j: int| 0 <= j < i as int ==> #[trigger] entries_model(ientries@)[j] == (
                index_data@[j].0@,
                JsonModel::Text(index_data@[j].1@),
            ),
        decreases n - i,
    {
        let pair = &ientries[i];
        match &pair.1 {
            JsonValue::Text(t) => {
                let ghost prev = index_data@;
                index_data.push((pair.0.clone(), t.clone()));
                proof {
                    assert forall|j: int| 0 <= j <= i as int implies #[trigger] entries_model(
                        ientries@,
                    )[j] == (index_data@[j].0@, JsonModel::Text(index_data@[j].1@)) by {
                        if j < i as int {
                            assert(entries_model(ientries@)[j] == (
                                prev[j].0@,
                                JsonModel::Text(prev[j].1@),
                            ));
                            assert(index_data@[j] == prev[j]);
                        }
                    }
                }
            },
            _ => {
                proof {
                    lemma_index_entries_fault(entries_model(ientries@), i as int);
                }
                return Err(ConfigFault::WrongFieldType(Field::IndexData));
            },
        }
        i += 1;
    }
    proof {
        let m = entries_model(ientries@);
        let p = string_pairs_model(index_data@);
        assert forall|j: int| 0 <= j < m.len() implies #[trigger] m[j] == (
            p[j].0,
            JsonModel::Text(p[j].1),
        ) by {
            assert(p[j] == (index_data@[j].0@, index_data@[j].1@));
            assert(entries_model(ientries@)[j] == (
                index_data@[j].0@,
                JsonModel::Text(index_data@[j].1@),
            ));
        }
        lemma_index_entries_all_text(m, p);
    }
    let token_claims = match get_field(entries, &"token_claims".to_owned()) {
        Option::None => {
            return Err(ConfigFault::MissingField(Field::TokenClaims));
        },
        Option::Some(cv) => cv.clone(),
    };
    Ok(InvocationConfig { table_name, primary_key, index_data, token_claims })
}

} // verus!
