//! The struct emitter: converts a table name plus an ordered column list
//! into the complete text of one Rust struct declaration.
//!
//! The assembly order is fixed: an optional serde import preamble, one
//! derive line, the struct header with the PascalCase table name, one field
//! line per column in catalog order (each string-typed field preceded by a
//! skip-if-empty serde annotation when annotations are on), and the closing
//! brace. Field names are emitted verbatim; only the type name is
//! case-converted.

use vstd::prelude::*;

use crate::strings::push_char;
use crate::strings::str_eq;
use crate::strings::to_upper;
use crate::strings::upper_char;
use crate::type_map::rust_type_of;
use crate::type_map::to_rust_type;

verus! {

/// One catalog column: its name and its declared SQL type, in the spelling
/// the catalog reports.
pub struct Field {
    pub name: String,
    pub data_type: String,
}

/// One pass of the PascalCase conversion: `cap` says whether the next
/// emitted character is upper-cased. An underscore is dropped and arms the
/// flag; every other character is copied, upper-cased exactly when the flag
/// is armed.
pub open spec fn pascal_rec(s: Seq<char>, cap: bool) -> Seq<char>
    decreases s.len(),
{
    if s.len() == 0 {
        Seq::empty()
    } else if s[0] == '_' {
        pascal_rec(s.skip(1), true)
    } else if cap {
        seq![to_upper(s[0])] + pascal_rec(s.skip(1), false)
    } else {
        seq![s[0]] + pascal_rec(s.skip(1), false)
    }
}

/// snake_case to PascalCase: the first character of every underscore-
/// separated segment is upper-cased, the separators are dropped, and all
/// other characters pass through unchanged.
pub open spec fn pascal_of(s: Seq<char>) -> Seq<char> {
    pascal_rec(s, true)
}

/// Executable PascalCase conversion, exactly as [`pascal_of`] states.
pub fn snake_to_camel(s: &str) -> (r: String)
    ensures
        r@ == pascal_of(s@),
{
    let len = s.unicode_len();
    let mut result = String::new();
    let mut capitalize_next = true;
    let mut i: usize = 0;
    proof {
        assert(s@.skip(0) =~= s@);
        assert(result@ + pascal_rec(s@.skip(0), true) =~= pascal_of(s@));
    }
    while i < len
        invariant
            len == s@.len(),
            i <= len,
            pascal_of(s@) == result@ + pascal_rec(s@.skip(i as int), capitalize_next),
        decreases len - i,
    {
        let c = s.get_char(i);
        proof {
            assert(s@.skip(i as int)[0] == s@[i as int]);
            assert(s@.skip(i as int).skip(1) =~= s@.skip(i + 1));
        }
        if c == '_' {
            capitalize_next = true;
        } else if capitalize_next {
            push_char(&mut result, upper_char(c));
            capitalize_next = false;
            proof {
                assert(result@ + pascal_rec(s@.skip(i + 1), false) =~= pascal_of(s@));
            }
        } else {
            push_char(&mut result, c);
            proof {
                assert(result@ + pascal_rec(s@.skip(i + 1), false) =~= pascal_of(s@));
            }
        }
        i = i + 1;
    }
    proof {
        assert(s@.skip(len as int) =~= Seq::<char>::empty());
        assert(result@ + pascal_rec(Seq::<char>::empty(), capitalize_next) =~= result@);
    }
    result
}

/// The lines that precede the struct header: with annotations on, the serde
/// import preamble and the serializable derive; otherwise the debug-only
/// derive.
pub open spec fn header_text(use_serde: bool) -> Seq<char> {
    if use_serde {
        "use serde::{Deserialize, Serialize};\n\n"@ + "#[derive(Debug, Serialize, Deserialize)]\n"@
    } else {
        "#[derive(Debug)]\n"@
    }
}

/// The text emitted for one column: the skip-if-empty annotation exactly
/// when annotations are on and the mapped type is `String`, then the field
/// line with the verbatim column name and the mapped type.
pub open spec fn field_text(f: Field, use_serde: bool) -> Seq<char> {
    let annotation = if use_serde && rust_type_of(f.data_type@) == "String"@ {
        "    #[serde(skip_serializing_if = \"String::is_empty\")]\n"@
    } else {
        Seq::<char>::empty()
    };
    annotation + "    pub "@ + f.name@ + ": "@ + rust_type_of(f.data_type@) + ",\n"@
}

/// The concatenated field lines for a column list, in input order.
pub open spec fn fields_text(fields: Seq<Field>, use_serde: bool) -> Seq<char>
    decreases fields.len(),
{
    if fields.len() == 0 {
        Seq::empty()
    } else {
        fields_text(fields.drop_last(), use_serde) + field_text(fields.last(), use_serde)
    }
}

/// The complete artifact for one table: header lines, struct header with
/// the PascalCase table name, the field lines in input order, and the
/// closing brace with a trailing newline.
pub open spec fn struct_text(name: Seq<char>, fields: Seq<Field>, use_serde: bool) -> Seq<char> {
    header_text(use_serde) + "pub struct "@ + pascal_of(name) + " {\n"@ + fields_text(
        fields,
        use_serde,
    ) + "}\n"@
}

/// Emits the struct declaration for one table, exactly as [`struct_text`]
/// states.
pub fn gen_struct(table_name: String, fields: Vec<Field>, use_serde: bool) -> (r: String)
    ensures
        r@ == struct_text(table_name@, fields@, use_serde),
{
    let mut content = String::new();

    if use_serde {
        content.append("use serde::{Deserialize, Serialize};\n\n");
        content.append("#[derive(Debug, Serialize, Deserialize)]\n");
    } else {
        content.append("#[derive(Debug)]\n");
    }

    content.append("pub struct ");
    let pascal = snake_to_camel(table_name.as_str());
    content.append(pascal.as_str());
    content.append(" {\n");
    proof {
        assert(content@ =~= header_text(use_serde) + "pub struct "@ + pascal_of(table_name@)
            + " {\n"@ + fields_text(fields@.take(0), use_serde));
    }

    let mut idx: usize = 0;
    while idx < fields.len()
        invariant
            idx <= fields.len(),
            content@ == header_text(use_serde) + "pub struct "@ + pascal_of(table_name@) + " {\n"@
                + fields_text(fields@.take(idx as int), use_serde),
        decreases fields.len() - idx,
    {
        let rust_type = to_rust_type(fields[idx].data_type.as_str());
        if use_serde && str_eq(rust_type, "String") {
            content.append("    #[serde(skip_serializing_if = \"String::is_empty\")]\n");
        }
        content.append("    pub ");
        content.append(fields[idx].name.as_str());
        content.append(": ");
        content.append(rust_type);
        content.append(",\n");
        proof {
            assert(fields@.take(idx + 1).drop_last() =~= fields@.take(idx as int));
            assert(fields@.take(idx + 1).last() == fields@[idx as int]);
            assert(content@ =~= header_text(use_serde) + "pub struct "@ + pascal_of(table_name@)
                + " {\n"@ + fields_text(fields@.take(idx + 1), use_serde));
        }
        idx = idx + 1;
    }

    content.append("}\n");
    proof {
        assert(fields@.take(fields@.len() as int) =~= fields@);
        assert(content@ =~= struct_text(table_name@, fields@, use_serde));
    }
    content
}

/// The emitter is deterministic: two artifacts produced for identical
/// inputs are identical, character for character.
pub proof fn lemma_emitter_deterministic(
    name: Seq<char>,
    fields: Seq<Field>,
    use_serde: bool,
    r1: Seq<char>,
    r2: Seq<char>,
)
    requires
        r1 == struct_text(name, fields, use_serde),
        r2 == struct_text(name, fields, use_serde),
    ensures
        r1 == r2,
{
}

/// An empty column list yields a well-formed declaration with no field
/// lines at all between the struct header and the closing brace.
pub proof fn lemma_empty_columns(name: Seq<char>, use_serde: bool)
    ensures
        struct_text(name, Seq::<Field>::empty(), use_serde) == header_text(use_serde)
            + "pub struct "@ + pascal_of(name) + " {\n"@ + "}\n"@,
{
    assert(struct_text(name, Seq::<Field>::empty(), use_serde) =~= header_text(use_serde)
        + "pub struct "@ + pascal_of(name) + " {\n"@ + "}\n"@);
}

} // verus!
