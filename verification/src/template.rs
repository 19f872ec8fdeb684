use vstd::prelude::*;
use crate::error::KayfabeError;
use crate::text::{find_sub, first_sub, join_spec, path_join};

verus! {

#[verifier::external_type_specification]
#[verifier::external_body]
pub struct ExTomlValue(toml::Value);

/// Relies on toml::from_str: parses the text as a TOML document. The
/// parsed value is opaque here; the error case carries the rendered parse
/// error.
#[verifier::external_body]
fn toml_parse(s: &str) -> Result<toml::Value, String> {
    match toml::from_str::<toml::Value>(s) {
        Ok(v) => Ok(v),
        Err(e) => Err(e.to_string()),
    }
}

/// Relies on toml::Value::get: the value under a key of a TOML table, or
/// `None` when the value is not a table or lacks the key.
#[verifier::external_body]
fn toml_get<'a>(v: &'a toml::Value, key: &str) -> Option<&'a toml::Value> {
    v.get(key)
}

/// Relies on toml::Value::as_str: the text of a TOML string value, or
/// `None` for any other kind of value.
#[verifier::external_body]
fn toml_as_str(v: &toml::Value) -> Option<String> {
    v.as_str().map(|s| s.to_owned())
}

/// A reusable snippet of configuration text with named placeholders.
pub struct Template {
    pub name: String,
    pub description: String,
    pub content: String,
    pub variables: Vec<String>,
}

/// The text with every occurrence of the needle replaced, scanning left
/// to right without overlap; an empty needle replaces nothing.
pub open spec fn replace_spec(s: Seq<char>, from: Seq<char>, to: Seq<char>) -> Seq<char>
    decreases s.len(),
{
    if from.len() == 0 {
        s
    } else {
        let k = first_sub(s, from);
        if k + from.len() > s.len() {
            s
        } else {
            s.subrange(0, k as int) + to + replace_spec(
                s.subrange(k as int + from.len() as int, s.len() as int),
                from,
                to,
            )
        }
    }
}

/// Replaces every occurrence of the needle, scanning left to right.
pub fn replace_all(s: &str, from: &str, to: &str) -> (r: String)
    ensures
        r@ == replace_spec(s@, from@, to@),
    decreases s@.len(),
{
    let m = from.unicode_len();
    if m == 0 {
        return s.to_owned();
    }
    let n = s.unicode_len();
    let k = find_sub(s, from);
    if m > n || k > n - m {
        s.to_owned()
    } else {
        let rest = replace_all(s.substring_char(k + m, n), from, to);
        let r = s.substring_char(0, k).to_owned().concat(to).concat(rest.as_str());
        proof {
            assert(r@ =~= replace_spec(s@, from@, to@));
        }
        r
    }
}

/// One placeholder key as it appears in template text.
pub open spec fn placeholder_spec(key: Seq<char>) -> Seq<char> {
    "{{"@ + key + "}}"@
}

/// The template text after the pairs are substituted in order: each key's
/// placeholder replaced by its value, earlier pairs first.
pub open spec fn render_spec(content: Seq<char>, pairs: Seq<(Seq<char>, Seq<char>)>) -> Seq<char>
    decreases pairs.len(),
{
    if pairs.len() == 0 {
        content
    } else {
        render_spec(
            replace_spec(content, placeholder_spec(pairs[0].0), pairs[0].1),
            pairs.drop_first(),
        )
    }
}

/// The character sequences of a sequence of key-value string pairs.
pub open spec fn pair_views(v: Seq<(String, String)>) -> Seq<(Seq<char>, Seq<char>)> {
    v.map_values(|p: (String, String)| (p.0@, p.1@))
}

impl Template {
    /// Substitutes the given values into the template's text: each key's
    /// placeholder is replaced by its value, in the order the pairs are
    /// given.
    pub fn render(&self, context: &Vec<(String, String)>) -> (r: Result<String, KayfabeError>)
        ensures
            r matches Ok(s) && s@ == render_spec(self.content@, pair_views(context@)),
    {
        let mut result = self.content.clone();
        let mut i: usize = 0;
        proof {
            assert(pair_views(context@).skip(0) =~= pair_views(context@));
        }
        while i < context.len()
            invariant
                0 <= i <= context@.len(),
                render_spec(result@, pair_views(context@).skip(i as int)) == render_spec(
                    self.content@,
                    pair_views(context@),
                ),
            decreases context@.len() - i,
        {
            let placeholder = "{{".to_owned().concat(context[i].0.as_str()).concat("}}");
            proof {
                assert(placeholder@ == placeholder_spec(pair_views(context@).skip(i as int)[0].0));
            }
            result = replace_all(result.as_str(), placeholder.as_str(), context[i].1.as_str());
            proof {
                assert(pair_views(context@).skip(i as int).drop_first() =~= pair_views(
                    context@,
                ).skip(i as int + 1));
            }
            i = i + 1;
        }
        proof {
            assert(pair_views(context@).skip(context@.len() as int) =~= Seq::<
                (Seq<char>, Seq<char>),
            >::empty());
        }
        Ok(result)
    }
}

/// Fills a template from what its file declares, defaulting each missing
/// or non-string field: an unnamed template is called "unknown", and the
/// description and content default to empty.
pub fn assemble_template(
    name: Option<String>,
    description: Option<String>,
    content: Option<String>,
) -> (r: Template)
    ensures
        r.name@ == (match name {
            Some(n) => n@,
            None => "unknown"@,
        }),
        r.description@ == (match description {
            Some(d) => d@,
            None => Seq::<char>::empty(),
        }),
        r.content@ == (match content {
            Some(c) => c@,
            None => Seq::<char>::empty(),
        }),
        r.variables@.len() == 0,
{
    proof {
        reveal_strlit("");
    }
    Template {
        name: match name {
            Some(n) => n,
            None => "unknown".to_owned(),
        },
        description: match description {
            Some(d) => d,
            None => "".to_owned(),
        },
        content: match content {
            Some(c) => c,
            None => "".to_owned(),
        },
        variables: Vec::new(),
    }
}

/// Manages the template store under the user's configuration directory.
pub struct TemplateManager;

impl TemplateManager {
    /// Where the template store lives: under the platform's configuration
    /// directory, which may be unavailable.
    pub fn templates_dir() -> (r: Result<String, KayfabeError>)
        ensures
            r matches Err(e) ==> (e matches KayfabeError::Other(m) && m@
                == "Could not find config directory"@),
    {
        match crate::config::config_dir_path() {
            Some(dir) => {
                let base = path_join(dir.as_str(), "kayfabe");
                Ok(path_join(base.as_str(), "templates"))
            },
            None => Err(KayfabeError::Other("Could not find config directory".to_owned())),
        }
    }

    /// The file a named template is stored at, under the store directory.
    pub fn template_path(templates_dir: &String, name: &String) -> (r: String)
        ensures
            r@ == join_spec(templates_dir@, name@ + ".toml"@),
    {
        let file = name.clone().concat(".toml");
        path_join(templates_dir.as_str(), file.as_str())
    }

    /// Parses one stored template file: the `name` and `description`
    /// strings and the `content.value` string, each defaulted when
    /// missing. A file that is not TOML at all is refused with the parse
    /// error.
    pub fn parse_template(text: &str) -> (r: Result<Template, KayfabeError>)
        ensures
            r matches Err(e) ==> e is Other,
            r matches Ok(t) ==> t.variables@.len() == 0,
    {
        let parsed = match toml_parse(text) {
            Ok(v) => v,
            Err(m) => {
                return Err(
                    KayfabeError::Other(
                        "Failed to parse template: ".to_owned().concat(m.as_str()),
                    ),
                );
            },
        };
        let name = match toml_get(&parsed, "name") {
            Some(v) => toml_as_str(v),
            None => None,
        };
        let description = match toml_get(&parsed, "description") {
            Some(v) => toml_as_str(v),
            None => None,
        };
        let content = match toml_get(&parsed, "content") {
            Some(v) => match toml_get(v, "value") {
                Some(w) => toml_as_str(w),
                None => None,
            },
            None => None,
        };
        Ok(assemble_template(name, description, content))
    }

    /// The text a template is stored as: its name and description, then
    /// its content in a literal block.
    pub fn template_file_content(t: &Template) -> (r: String)
        ensures
            r@ == "name = \""@ + t.name@ + "\"\ndescription = \""@ + t.description@
                + "\"\n\n[content]\nvalue = \"\"\"\n"@ + t.content@ + "\n\"\"\""@,
    {
        let r = "name = \"".to_owned().concat(t.name.as_str()).concat(
            "\"\ndescription = \"",
        ).concat(t.description.as_str()).concat("\"\n\n[content]\nvalue = \"\"\"\n").concat(
            t.content.as_str(),
        ).concat("\n\"\"\"");
        proof {
            assert(r@ =~= "name = \""@ + t.name@ + "\"\ndescription = \""@ + t.description@
                + "\"\n\n[content]\nvalue = \"\"\"\n"@ + t.content@ + "\n\"\"\""@);
        }
        r
    }
}

} // verus!
