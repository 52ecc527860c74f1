//! What the instructions of the user say about the sub-agents of the
//! session.

use crate::lines::{join, joined, string_texts};
use crate::search::{absent_from, find_from, first_at, occurs_at};
use crate::subagents::inventory::SubagentInventory;
use crate::subagents::record::SubagentRecordView;
use crate::text::{
    chars_of, drop_trailing_spaces, push_all, push_str, string_of, sub_vec, trailing_bound, trim,
    trimmed,
};
use vstd::prelude::*;

verus! {

/// The line that opens the guidance within the instructions.
pub open spec fn guidance_start() -> Seq<char> {
    "--- subagent-guidance ---"@
}

/// The line that closes it.
pub open spec fn guidance_end() -> Seq<char> {
    "--- end-subagent-guidance ---"@
}

/// The line of the guidance that stands for a sub-agent: its name,
/// and its description where it has one.
pub open spec fn agent_line(record: SubagentRecordView) -> Seq<char> {
    if trimmed(record.definition.description).len() == 0 {
        "  - "@ + record.definition.name
    } else {
        "  - "@ + record.definition.name + ": "@ + trimmed(record.definition.description)
    }
}

/// The lines that open the guidance.
pub open spec fn guidance_head() -> Seq<Seq<char>> {
    seq![
        "Subagent delegation guidance:"@,
        "- Read available subagent descriptions each turn and follow any directives they contain."@,
        "- When a description says to proactively handle the current request, name the subagent, ask the user for approval, invoke it with `invoke_subagent` (retry with `confirmed: true` after approval), and relay the subagent's report before adding your own analysis. Continue solo only if the user declines."@,
        "- Delegate only when the user's request matches the subagent's remit."@,
        "Available subagents:"@,
    ]
}

/// The lines of the guidance for the sub-agents given: the head, and a
/// line for each of them.
pub open spec fn guidance_lines(records: Seq<(Seq<char>, SubagentRecordView)>) -> Seq<Seq<char>> {
    guidance_head() + records.map_values(|e: (Seq<char>, SubagentRecordView)| agent_line(e.1))
}

/// What the model is told of the sub-agents of an inventory: nothing
/// where it has none, else the guidance with a line for each, in the
/// order of their names.
pub fn build_subagent_guidance(inventory: &SubagentInventory) -> (r: Option<String>)
    ensures
        r.deep_view() == (if inventory.deep_view().subagents.len() == 0 {
            None
        } else {
            Some(joined(guidance_lines(inventory.deep_view().subagents), "\n"@))
        }),
{
    let n = inventory.subagents.len();
    if n == 0 {
        return None;
    }
    let mut lines: Vec<String> = Vec::new();
    lines.push(String::from_str("Subagent delegation guidance:"));
    lines.push(
        String::from_str(
            "- Read available subagent descriptions each turn and follow any directives they contain.",
        ),
    );
    lines.push(
        String::from_str(
            "- When a description says to proactively handle the current request, name the subagent, ask the user for approval, invoke it with `invoke_subagent` (retry with `confirmed: true` after approval), and relay the subagent's report before adding your own analysis. Continue solo only if the user declines.",
        ),
    );
    lines.push(
        String::from_str("- Delegate only when the user's request matches the subagent's remit."),
    );
    lines.push(String::from_str("Available subagents:"));
    let ghost records = inventory.deep_view().subagents;
    let ghost f = |e: (Seq<char>, SubagentRecordView)| agent_line(e.1);
    proof {
        assert(string_texts(lines@) =~= guidance_head() + records.take(0).map_values(f));
    }
    let mut i: usize = 0;
    while i < n
        invariant
            i <= n,
            n == records.len(),
            records == inventory.deep_view().subagents,
            records == inventory.subagents.deep_view(),
            f == (|e: (Seq<char>, SubagentRecordView)| agent_line(e.1)),
            string_texts(lines@) == guidance_head() + records.take(i as int).map_values(f),
        decreases n - i,
    {
        let record = inventory.subagents.record_at(i);
        let description = trim(record.definition.description.as_str());
        let mut line: Vec<char> = Vec::new();
        push_str(&mut line, "  - ");
        push_str(&mut line, record.definition.name.as_str());
        if !description.as_str().is_empty() {
            push_str(&mut line, ": ");
            push_str(&mut line, description.as_str());
        }
        let ghost before = string_texts(lines@);
        lines.push(string_of(&line));
        proof {
            assert(records.take(i + 1) =~= records.take(i as int).push(records[i as int]));
            assert(records.take(i + 1).map_values(f) =~= records.take(i as int).map_values(f).push(
                agent_line(records[i as int].1),
            ));
            assert(string_texts(lines@) =~= before.push(line@));
            assert(string_texts(lines@) =~= guidance_head() + records.take(i + 1).map_values(f));
        }
        i += 1;
    }
    proof {
        assert(records.take(n as int) =~= records);
    }
    Some(join(&lines, "\n"))
}

/// Where `p` first stands in `s` at or after `from`, if anywhere.
pub open spec fn found_at(s: Seq<char>, p: Seq<char>, from: int) -> Option<int> {
    if exists|i: int| first_at(s, p, from, i) {
        Some(choose|i: int| first_at(s, p, from, i))
    } else {
        None
    }
}

proof fn lemma_found(s: Seq<char>, p: Seq<char>, from: int, i: int)
    requires
        first_at(s, p, from, i),
    ensures
        found_at(s, p, from) == Some(i),
{
    let j = choose|j: int| first_at(s, p, from, j);
    if j < i {
        assert(!occurs_at(s, p, j));
    }
    if i < j {
        assert(!occurs_at(s, p, i));
    }
}

proof fn lemma_not_found(s: Seq<char>, p: Seq<char>, from: int)
    requires
        absent_from(s, p, from),
    ensures
        found_at(s, p, from) is None,
{
    if exists|i: int| first_at(s, p, from, i) {
        let i = choose|i: int| first_at(s, p, from, i);
        assert(!occurs_at(s, p, i));
    }
}

/// The guidance between its two lines.
pub open spec fn guidance_block(body: Seq<char>) -> Seq<char> {
    guidance_start() + "\n"@ + body + "\n"@ + guidance_end()
}

/// Instructions with the guidance in them. Instructions that hold a
/// guidance already get the new one in its place: from its opening
/// line to its closing line, or to the end where it is not closed.
/// Other instructions get the guidance at their end, after an empty
/// line where they say anything at all.
pub open spec fn with_guidance(text: Seq<char>, block: Seq<char>) -> Seq<char> {
    match found_at(text, guidance_start(), 0) {
        Some(start) => match found_at(text, guidance_end(), start) {
            Some(end) => text.take(start) + block + text.skip(end + guidance_end().len()),
            None => text.take(start) + block,
        },
        None => if drop_trailing_spaces(text).len() == 0 {
            text + block
        } else if text.last() == '\n' {
            text + "\n"@ + block
        } else {
            text + "\n\n"@ + block
        },
    }
}

/// The instructions of the user with the guidance for the sub-agents
/// of the inventory in them (see `with_guidance`). Without an
/// inventory, or with one that holds no sub-agent, the instructions
/// stay as they are.
pub open spec fn merged_instructions(existing: Option<Seq<char>>, guidance: Option<Seq<char>>) -> Option<
    Seq<char>,
> {
    match guidance {
        None => existing,
        Some(body) => match existing {
            Some(text) => Some(with_guidance(text, guidance_block(body))),
            None => Some(guidance_block(body)),
        },
    }
}

/// Puts the guidance into the instructions.
pub fn merge_guidance(existing: Option<String>, guidance: Option<String>) -> (r: Option<String>)
    ensures
        r.deep_view() == merged_instructions(existing.deep_view(), guidance.deep_view()),
{
    let body = match guidance {
        None => {
            return existing;
        },
        Some(body) => body,
    };
    let mut block: Vec<char> = Vec::new();
    push_str(&mut block, "--- subagent-guidance ---");
    push_str(&mut block, "\n");
    push_str(&mut block, body.as_str());
    push_str(&mut block, "\n");
    push_str(&mut block, "--- end-subagent-guidance ---");
    proof {
        assert(block@ =~= guidance_block(body@));
    }
    let text = match existing {
        None => {
            return Some(string_of(&block));
        },
        Some(text) => chars_of(text.as_str()),
    };
    let start_mark = chars_of("--- subagent-guidance ---");
    let end_mark = chars_of("--- end-subagent-guidance ---");
    let mut out: Vec<char> = Vec::new();
    match find_from(&text, &start_mark, 0) {
        Some(start) => {
            proof {
                lemma_found(text@, guidance_start(), 0, start as int);
            }
            let head = sub_vec(&text, 0, start);
            push_all(&mut out, &head);
            push_all(&mut out, &block);
            proof {
                assert(text@.subrange(0, start as int) =~= text@.take(start as int));
            }
            match find_from(&text, &end_mark, start) {
                Some(end) => {
                    proof {
                        lemma_found(text@, guidance_end(), start as int, end as int);
                        assert(occurs_at(text@, end_mark@, end as int));
                    }
                    let tail = sub_vec(&text, end + end_mark.len(), text.len());
                    push_all(&mut out, &tail);
                    proof {
                        assert(text@.subrange(end + end_mark@.len(), text@.len() as int)
                            =~= text@.skip(end + guidance_end().len()));
                        assert(out@ =~= with_guidance(text@, block@));
                    }
                },
                None => {
                    proof {
                        lemma_not_found(text@, guidance_end(), start as int);
                        assert(out@ =~= with_guidance(text@, block@));
                    }
                },
            }
        },
        None => {
            proof {
                lemma_not_found(text@, guidance_start(), 0);
            }
            push_all(&mut out, &text);
            let kept = trailing_bound(&text);
            proof {
                assert(text@.take(kept as int).len() == kept);
            }
            if kept > 0 {
                if text[text.len() - 1] != '\n' {
                    push_str(&mut out, "\n");
                }
                push_str(&mut out, "\n");
            }
            push_all(&mut out, &block);
            proof {
                reveal_strlit("\n");
                reveal_strlit("\n\n");
                assert("\n\n"@ =~= "\n"@ + "\n"@);
                assert(out@ =~= with_guidance(text@, block@));
            }
        },
    }
    Some(string_of(&out))
}

/// The instructions of the user with the guidance for the sub-agents
/// of the inventory in them.
pub fn merge_subagent_user_instructions(
    existing: Option<String>,
    inventory: Option<&SubagentInventory>,
) -> (r: Option<String>)
    ensures
        r.deep_view() == merged_instructions(
            existing.deep_view(),
            match inventory {
                Some(inv) => if inv.deep_view().subagents.len() == 0 {
                    None
                } else {
                    Some(joined(guidance_lines(inv.deep_view().subagents), "\n"@))
                },
                None => None,
            },
        ),
{
    let guidance = match inventory {
        Some(inv) => build_subagent_guidance(inv),
        None => None,
    };
    merge_guidance(existing, guidance)
}

} // verus!
