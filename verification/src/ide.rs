use vstd::prelude::*;

verus! {

/// Two characters are equal up to basic-latin letter case.
pub open spec fn eqi_char(a: char, b: char) -> bool {
    ||| a == b
    ||| ('A' <= a <= 'Z' && b as u32 == a as u32 + 32)
    ||| ('A' <= b <= 'Z' && a as u32 == b as u32 + 32)
}

/// Two character sequences are equal up to basic-latin letter case.
pub open spec fn eqi_spec(a: Seq<char>, b: Seq<char>) -> bool {
    a.len() == b.len() && forall|i: int| 0 <= i < a.len() ==> eqi_char(#[trigger] a[i], b[i])
}

/// Whether two strings are equal up to basic-latin letter case.
pub fn eq_ignore_case(a: &str, b: &str) -> (r: bool)
    ensures
        r == eqi_spec(a@, b@),
{
    let n = a.unicode_len();
    let m = b.unicode_len();
    if n != m {
        return false;
    }
    let mut i: usize = 0;
    while i < n
        invariant
            0 <= i <= n,
            n == a@.len(),
            n == b@.len(),
            forall|j: int| 0 <= j < i ==> eqi_char(#[trigger] a@[j], b@[j]),
        decreases n - i,
    {
        let ca = a.get_char(i);
        let cb = b.get_char(i);
        let same = ca == cb || ('A' <= ca && ca <= 'Z' && cb as u32 == ca as u32 + 32) || ('A' <= cb
            && cb <= 'Z' && ca as u32 == cb as u32 + 32);
        if !same {
            return false;
        }
        i = i + 1;
    }
    true
}

/// The closed set of editors the tool knows how to launch.
#[derive(Clone, Copy)]
pub enum IDE {
    Cursor,
    Windsurf,
    Idea,
    Code,
    Assistant,
}

impl IDE {
    /// Parses an editor name, ignoring letter case; `None` for a name
    /// outside the known set.
    pub fn parse(s: &str) -> (r: Option<IDE>)
        ensures
            eqi_spec(s@, "cursor"@) ==> r == Some(IDE::Cursor),
            eqi_spec(s@, "windsurf"@) ==> r == Some(IDE::Windsurf),
            eqi_spec(s@, "idea"@) ==> r == Some(IDE::Idea),
            eqi_spec(s@, "code"@) ==> r == Some(IDE::Code),
            eqi_spec(s@, "assistant"@) ==> r == Some(IDE::Assistant),
            !eqi_spec(s@, "cursor"@) && !eqi_spec(s@, "windsurf"@) && !eqi_spec(s@, "idea"@)
                && !eqi_spec(s@, "code"@) && !eqi_spec(s@, "assistant"@) ==> r is None,
    {
        proof {
            reveal_strlit("cursor");
            reveal_strlit("windsurf");
            reveal_strlit("idea");
            reveal_strlit("code");
            reveal_strlit("assistant");
        }
        if eq_ignore_case(s, "cursor") {
            proof {
                if eqi_spec(s@, "assistant"@) {
                    assert(eqi_char(s@[1], "cursor"@[1]));
                    assert(eqi_char(s@[1], "assistant"@[1]));
                }
            }
            Some(IDE::Cursor)
        } else if eq_ignore_case(s, "windsurf") {
            Some(IDE::Windsurf)
        } else if eq_ignore_case(s, "idea") {
            proof {
                if eqi_spec(s@, "code"@) {
                    assert(eqi_char(s@[0], "idea"@[0]));
                    assert(eqi_char(s@[0], "code"@[0]));
                }
            }
            Some(IDE::Idea)
        } else if eq_ignore_case(s, "code") {
            Some(IDE::Code)
        } else if eq_ignore_case(s, "assistant") {
            Some(IDE::Assistant)
        } else {
            None
        }
    }

    /// The executable each editor is launched through.
    pub fn command(&self) -> (r: &'static str)
        ensures
            *self is Cursor ==> r@ == "cursor"@,
            *self is Windsurf ==> r@ == "windsurf"@,
            *self is Idea ==> r@ == "idea"@,
            *self is Code ==> r@ == "code"@,
            *self is Assistant ==> r@ == "assistant"@,
    {
        match self {
            IDE::Cursor => "cursor",
            IDE::Windsurf => "windsurf",
            IDE::Idea => "idea",
            IDE::Code => "code",
            IDE::Assistant => "assistant",
        }
    }
}

/// The editors the availability probes found installed, kept in the fixed
/// probing order: cursor, windsurf, idea, code, assistant.
pub fn available_ides(cursor: bool, windsurf: bool, idea: bool, code: bool, assistant: bool) -> (r:
    Vec<IDE>)
    ensures
        r@ == (if cursor {
            seq![IDE::Cursor]
        } else {
            Seq::<IDE>::empty()
        }) + (if windsurf {
            seq![IDE::Windsurf]
        } else {
            Seq::<IDE>::empty()
        }) + (if idea {
            seq![IDE::Idea]
        } else {
            Seq::<IDE>::empty()
        }) + (if code {
            seq![IDE::Code]
        } else {
            Seq::<IDE>::empty()
        }) + (if assistant {
            seq![IDE::Assistant]
        } else {
            Seq::<IDE>::empty()
        }),
{
    let mut r: Vec<IDE> = Vec::new();
    if cursor {
        r.push(IDE::Cursor);
    }
    if windsurf {
        r.push(IDE::Windsurf);
    }
    if idea {
        r.push(IDE::Idea);
    }
    if code {
        r.push(IDE::Code);
    }
    if assistant {
        r.push(IDE::Assistant);
    }
    proof {
        assert(r@ =~= (if cursor {
            seq![IDE::Cursor]
        } else {
            Seq::<IDE>::empty()
        }) + (if windsurf {
            seq![IDE::Windsurf]
        } else {
            Seq::<IDE>::empty()
        }) + (if idea {
            seq![IDE::Idea]
        } else {
            Seq::<IDE>::empty()
        }) + (if code {
            seq![IDE::Code]
        } else {
            Seq::<IDE>::empty()
        }) + (if assistant {
            seq![IDE::Assistant]
        } else {
            Seq::<IDE>::empty()
        }));
    }
    r
}

} // verus!
