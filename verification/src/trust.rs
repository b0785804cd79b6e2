//! The tools that the user trusts by name.

#[allow(unused_imports)]
use crate::terminal::styled_view;
use crate::terminal::{styled, StyledText, TextColor};
#[allow(unused_imports)]
use crate::text::texts;
use crate::text::{list_contains, starts_with};
use vstd::prelude::*;

verus! {

/// The names that are not empty. The empty name, which an empty list of tools on the
/// command line gives, is that of no tool.
pub open spec fn non_empty(names: Seq<Seq<char>>) -> Seq<Seq<char>> {
    names.filter(|name: Seq<char>| name.len() > 0)
}

/// A tool is named in full where it is built in or where the name starts with that
/// of its server, after an at sign. Any other name, the empty one among them, matches
/// no tool.
pub open spec fn lacks_server_name(tool: Seq<char>, native_tools: Seq<Seq<char>>) -> bool {
    !"@"@.is_prefix_of(tool) && !native_tools.contains(tool)
}

/// The warning about a tool that is not named in full.
pub open spec fn tool_warning(tool: Seq<char>) -> Seq<(TextColor, Seq<char>)> {
    seq![
        (TextColor::Yellow, "WARNING: "@),
        (TextColor::Reset, "--trust-tools arg for custom tool "@),
        (TextColor::Cyan, tool),
        (TextColor::Reset, " needs to be prepended with "@),
        (TextColor::Green, "@{MCPSERVERNAME}/"@),
        (TextColor::Reset, "\n"@),
    ]
}

/// The tools that are not named in full, in their order.
pub open spec fn tools_to_warn_about(tools: Seq<Seq<char>>, native_tools: Seq<Seq<char>>) -> Seq<
    Seq<char>,
> {
    tools.filter(|tool: Seq<char>| lacks_server_name(tool, native_tools))
}

/// The warnings about them, one for each.
pub open spec fn tool_warnings(tools: Seq<Seq<char>>, native_tools: Seq<Seq<char>>) -> Seq<
    Seq<(TextColor, Seq<char>)>,
> {
    tools_to_warn_about(tools, native_tools).map_values(|tool: Seq<char>| tool_warning(tool))
}

/// The colours and characters of a list of warnings.
pub open spec fn warnings_view(warnings: Seq<Vec<StyledText>>) -> Seq<Seq<(TextColor, Seq<char>)>> {
    warnings.map_values(|warning: Vec<StyledText>| styled_view(warning@))
}

/// What is said about the tools that the user trusts by name.
pub fn warn_about_tools(tools: &Vec<String>, native_tools: &Vec<String>) -> (warnings: Vec<
    Vec<StyledText>,
>)
    ensures
        warnings_view(warnings@) == tool_warnings(texts(tools@), texts(native_tools@)),
{
    let ghost names = texts(tools@);
    let ghost native = texts(native_tools@);
    let mut warnings: Vec<Vec<StyledText>> = Vec::new();
    let mut i: usize = 0;
    proof {
        reveal(Seq::filter);
    }
    while i < tools.len()
        invariant
            i <= tools.len(),
            names == texts(tools@),
            native == texts(native_tools@),
            warnings_view(warnings@) == tool_warnings(names.take(i as int), native),
        decreases tools.len() - i,
    {
        let tool: &str = tools[i].as_str();
        let ghost earlier = warnings@;
        let ghost kept = tools_to_warn_about(names.take(i as int), native);
        proof {
            reveal(Seq::filter);
            assert(names.take(i + 1).drop_last() == names.take(i as int));
        }
        if !starts_with(tool, "@") && !list_contains(native_tools, tool) {
            let warning: Vec<StyledText> = warn_about_tool(tool);
            assert(tools_to_warn_about(names.take(i + 1), native) == kept.push(tool@));
            assert(tool_warnings(names.take(i + 1), native) == tool_warnings(
                names.take(i as int),
                native,
            ).push(tool_warning(tool@)));
            warnings.push(warning);
            assert(warnings_view(warnings@) == warnings_view(earlier).push(tool_warning(tool@)));
        }
        i = i + 1;
    }
    assert(names.take(tools.len() as int) == names);
    warnings
}

/// The warning about one tool.
fn warn_about_tool(tool: &str) -> (pieces: Vec<StyledText>)
    ensures
        styled_view(pieces@) == tool_warning(tool@),
{
    vec![
        styled(TextColor::Yellow, "WARNING: "),
        styled(TextColor::Reset, "--trust-tools arg for custom tool "),
        styled(TextColor::Cyan, tool),
        styled(TextColor::Reset, " needs to be prepended with "),
        styled(TextColor::Green, "@{MCPSERVERNAME}/"),
        styled(TextColor::Reset, "\n"),
    ]
}

/// The tools that the user trusts: those that have a name.
pub fn trusted_tools(tools: &Vec<String>) -> (named: Vec<String>)
    ensures
        texts(named@) == non_empty(texts(tools@)),
{
    let ghost names = texts(tools@);
    let mut named: Vec<String> = Vec::new();
    let mut i: usize = 0;
    proof {
        reveal(Seq::filter);
    }
    while i < tools.len()
        invariant
            i <= tools.len(),
            names == texts(tools@),
            texts(named@) == non_empty(names.take(i as int)),
        decreases tools.len() - i,
    {
        let ghost earlier = named@;
        proof {
            reveal(Seq::filter);
            assert(names.take(i + 1).drop_last() == names.take(i as int));
        }
        if !tools[i].as_str().is_empty() {
            named.push(tools[i].clone());
            assert(texts(named@) == texts(earlier).push(names[i as int]));
        }
        i = i + 1;
    }
    assert(names.take(tools.len() as int) == names);
    named
}

/// Nothing is said exactly where every tool is named in full.
pub proof fn law_full_names_are_not_warned_about(
    tools: Seq<Seq<char>>,
    native_tools: Seq<Seq<char>>,
)
    ensures
        tool_warnings(tools, native_tools).len() == 0 <==> forall|i: int|
            0 <= i < tools.len() ==> !lacks_server_name(#[trigger] tools[i], native_tools),
{
    let lacking = |tool: Seq<char>| lacks_server_name(tool, native_tools);
    if tool_warnings(tools, native_tools).len() == 0 {
        assert forall|i: int| 0 <= i < tools.len() implies !lacks_server_name(
            #[trigger] tools[i],
            native_tools,
        ) by {
            if lacking(tools[i]) {
                tools.lemma_filter_contains(lacking, i);
            }
        }
    } else {
        tools.lemma_filter_pred(lacking, 0);
        let tool = tools.filter(lacking)[0];
        assert(tools.filter(lacking).contains(tool));
        tools.lemma_filter_contains_rev(lacking, tool);
        let i = choose|i: int| 0 <= i < tools.len() && tools[i] == tool;
        assert(lacks_server_name(tools[i], native_tools));
    }
}

/// A name is among those that are not empty exactly where it is among all of them and
/// is not empty; of a list of empty names nothing is left.
pub proof fn law_only_empty_names_are_left_out(names: Seq<Seq<char>>)
    ensures
        forall|name: Seq<char>| #[trigger]
            non_empty(names).contains(name) <==> names.contains(name) && name.len() > 0,
        (forall|i: int| 0 <= i < names.len() ==> (#[trigger] names[i]).len() == 0) ==> non_empty(
            names,
        ).len() == 0,
{
    let named = |name: Seq<char>| name.len() > 0;
    assert forall|name: Seq<char>| #[trigger] non_empty(names).contains(name) <==> names.contains(
        name,
    ) && name.len() > 0 by {
        if non_empty(names).contains(name) {
            names.lemma_filter_contains_rev(named, name);
            let i = choose|i: int| 0 <= i < non_empty(names).len() && non_empty(names)[i] == name;
            names.lemma_filter_pred(named, i);
        }
        if names.contains(name) && name.len() > 0 {
            let i = choose|i: int| 0 <= i < names.len() && names[i] == name;
            names.lemma_filter_contains(named, i);
        }
    }
    if non_empty(names).len() > 0 {
        let name = non_empty(names)[0];
        assert(non_empty(names).contains(name));
        let i = choose|i: int| 0 <= i < names.len() && names[i] == name;
        assert(names[i].len() > 0);
    }
}

/// One tool is warned about exactly where its name neither starts with an at sign nor is
/// that of a tool that is built in; the warning names it.
pub proof fn law_one_tool_gets_one_warning(
    tool: Seq<char>,
    tools: Vec<String>,
    native_tools: Vec<String>,
    warnings: Vec<Vec<StyledText>>,
)
    requires
        call_ensures(warn_about_tools, (&tools, &native_tools), warnings),
        tools@.len() == 1,
        tool == tools@[0]@,
    ensures
        warnings@.len() == 0 <==> (tool.len() > 0 && tool[0] == '@') || (exists|i: int|
            0 <= i < native_tools@.len() && #[trigger] native_tools@[i]@ == tool),
        warnings@.len() > 0 ==> {
            let pieces = warnings@[0]@;
            &&& warnings@.len() == 1
            &&& pieces.len() == 6
            &&& pieces[0].color == TextColor::Yellow && pieces[0].text@ == "WARNING: "@
            &&& pieces[1].color == TextColor::Reset && pieces[1].text@
                == "--trust-tools arg for custom tool "@
            &&& pieces[2].color == TextColor::Cyan && pieces[2].text@ == tool
            &&& pieces[3].color == TextColor::Reset && pieces[3].text@
                == " needs to be prepended with "@
            &&& pieces[4].color == TextColor::Green && pieces[4].text@ == "@{MCPSERVERNAME}/"@
            &&& pieces[5].color == TextColor::Reset && pieces[5].text@ == "\n"@
        },
{
    reveal_with_fuel(Seq::filter, 2);
    reveal_strlit("@");
    let names = texts(tools@);
    let native = texts(native_tools@);
    assert(names.drop_last() == Seq::<Seq<char>>::empty());
    assert(names.last() == tool);
    assert("@"@ == seq!['@']);
    if tool.len() > 0 {
        assert(tool.subrange(0, 1)[0] == tool[0]);
        assert(tool[0] == '@' ==> tool.subrange(0, 1) == "@"@);
    }
    assert("@"@.is_prefix_of(tool) <==> tool.len() > 0 && tool[0] == '@');
    if native.contains(tool) {
        let i = choose|i: int| 0 <= i < native.len() && native[i] == tool;
        assert(native_tools@[i]@ == tool);
    }
    assert forall|i: int| 0 <= i < native_tools@.len() && #[trigger] native_tools@[i]@
        == tool implies native.contains(tool) by {
        assert(native[i] == tool);
    }
    assert(warnings_view(warnings@).len() == warnings@.len());
    if lacks_server_name(tool, native) {
        assert(tools_to_warn_about(names, native) == seq![tool]);
        assert(warnings_view(warnings@)[0] == tool_warning(tool));
        let pieces = warnings@[0]@;
        assert(styled_view(pieces) == tool_warning(tool));
        assert(styled_view(pieces).len() == pieces.len());
        assert forall|i: int| 0 <= i < pieces.len() implies styled_view(pieces)[i] == (
            #[trigger] pieces[i].color,
            pieces[i].text@,
        ) by {}
    } else {
        assert(tools_to_warn_about(names, native) == Seq::<Seq<char>>::empty());
    }
}

/// What is said about two lists of tools is what is said about the one and then about the
/// other: no tool bears on the warning about another.
pub proof fn law_warnings_add_up(
    first: Vec<String>,
    second: Vec<String>,
    both: Vec<String>,
    native_tools: Vec<String>,
    about_first: Vec<Vec<StyledText>>,
    about_second: Vec<Vec<StyledText>>,
    about_both: Vec<Vec<StyledText>>,
)
    requires
        both@ == first@ + second@,
        call_ensures(warn_about_tools, (&first, &native_tools), about_first),
        call_ensures(warn_about_tools, (&second, &native_tools), about_second),
        call_ensures(warn_about_tools, (&both, &native_tools), about_both),
    ensures
        warnings_view(about_both@) == warnings_view(about_first@) + warnings_view(about_second@),
        warnings_view(about_both@).len() == about_both@.len(),
        forall|i: int|
            0 <= i < about_both@.len() ==> warnings_view(about_both@)[i] == styled_view(
                (#[trigger] about_both@[i])@,
            ),
{
    let native = texts(native_tools@);
    assert(texts(both@) == texts(first@) + texts(second@));
    Seq::filter_distributes_over_add(
        texts(first@),
        texts(second@),
        |tool: Seq<char>| lacks_server_name(tool, native),
    );
    assert(tool_warnings(texts(both@), native) == tool_warnings(texts(first@), native)
        + tool_warnings(texts(second@), native));
}

/// The tools that are trusted are those that have a name, each as often as it is named and
/// in the order in which they are named.
pub proof fn law_trusted_tools_add_up(
    first: Vec<String>,
    second: Vec<String>,
    both: Vec<String>,
    of_first: Vec<String>,
    of_second: Vec<String>,
    of_both: Vec<String>,
)
    requires
        both@ == first@ + second@,
        call_ensures(trusted_tools, (&first,), of_first),
        call_ensures(trusted_tools, (&second,), of_second),
        call_ensures(trusted_tools, (&both,), of_both),
    ensures
        texts(of_both@) == texts(of_first@) + texts(of_second@),
        first@.len() == 0 ==> of_first@.len() == 0,
        first@.len() == 1 && first@[0]@.len() == 0 ==> of_first@.len() == 0,
        first@.len() == 1 && first@[0]@.len() > 0 ==> of_first@.len() == 1 && of_first@[0]@
            == first@[0]@,
{
    reveal_with_fuel(Seq::filter, 2);
    assert(texts(both@) == texts(first@) + texts(second@));
    Seq::filter_distributes_over_add(
        texts(first@),
        texts(second@),
        |name: Seq<char>| name.len() > 0,
    );
    assert(texts(of_first@).len() == of_first@.len());
    if first@.len() == 1 {
        let names = texts(first@);
        assert(names.drop_last() == Seq::<Seq<char>>::empty());
        assert(names.last() == first@[0]@);
        if first@[0]@.len() > 0 {
            assert(non_empty(names) == seq![first@[0]@]);
            assert(texts(of_first@)[0] == of_first@[0]@);
        } else {
            assert(non_empty(names) == Seq::<Seq<char>>::empty());
        }
    }
}

} // verus!
