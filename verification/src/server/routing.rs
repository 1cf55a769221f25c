//! How the gateway presents the tools of several devices as one MCP server
//! and routes a tool call back to the device that offers the tool.
//!
//! With one device online its tools keep their names.  With several, each
//! tool is named `alias:tool` and its description starts with `[alias] `,
//! and a call names the device by that prefix.

use vstd::prelude::*;
use vstd::string::StringExecFns;
use crate::text::{chars_of, string_of};

verus! {

/// A tool as the gateway relays it: its name and description.
#[derive(Debug)]
pub struct ToolEntry {
    pub name: String,
    pub description: Option<String>,
}

/// The tools one device offered, or `None` when it did not answer.
#[derive(Debug)]
pub struct DeviceTools {
    pub alias: String,
    pub tools: Option<Vec<ToolEntry>>,
}

/// A tool's name and description.
pub struct ToolView {
    pub name: Seq<char>,
    pub description: Option<Seq<char>>,
}

impl View for ToolEntry {
    type V = ToolView;

    open spec fn view(&self) -> ToolView {
        ToolView { name: self.name@, description: self.description.deep_view() }
    }
}

/// The name under which a device's tool is offered.
pub open spec fn exposed_name(single: bool, alias: Seq<char>, name: Seq<char>) -> Seq<char> {
    if single {
        name
    } else {
        alias + ":"@ + name
    }
}

/// The description under which a device's tool is offered.
pub open spec fn exposed_description(single: bool, alias: Seq<char>, d: Option<Seq<char>>) -> Option<
    Seq<char>,
> {
    match d {
        Some(t) => if single {
            Some(t)
        } else {
            Some("["@ + alias + "] "@ + t)
        },
        None => None,
    }
}

/// A tool as it is offered.
pub open spec fn exposed(single: bool, alias: Seq<char>, t: ToolView) -> ToolView {
    ToolView {
        name: exposed_name(single, alias, t.name),
        description: exposed_description(single, alias, t.description),
    }
}

/// The tools of the devices in `devs`, in device order, as they are offered.
pub open spec fn aggregated(devs: Seq<DeviceTools>, single: bool) -> Seq<ToolView>
    decreases devs.len(),
{
    if devs.len() == 0 {
        Seq::empty()
    } else {
        let d = devs.last();
        aggregated(devs.drop_last(), single) + match d.tools {
            Some(ts) => ts@.map_values(|t: ToolEntry| exposed(single, d.alias@, t@)),
            None => Seq::empty(),
        }
    }
}

/// `t` as offered by the device with `alias`.
pub fn expose_tool(single: bool, alias: &str, t: ToolEntry) -> (r: ToolEntry)
    ensures
        r@ == exposed(single, alias@, t@),
{
    if single {
        return t;
    }
    let mut name = alias.to_string();
    name.append(":");
    name.append(t.name.as_str());
    let description = match t.description {
        Some(d) => {
            let mut s = "[".to_string();
            s.append(alias);
            s.append("] ");
            s.append(d.as_str());
            Some(s)
        },
        None => None,
    };
    ToolEntry { name, description }
}

/// The tools of all devices that answered, as one list (`tools/list` of
/// the gateway).  Prefixing applies when more than one device is online,
/// whether or not every one of them answered.
pub fn aggregate_tools(devices: Vec<DeviceTools>) -> (r: Vec<ToolEntry>)
    ensures
        r@.map_values(|t: ToolEntry| t@) == aggregated(devices@, devices@.len() == 1),
{
    let single = devices.len() == 1;
    let ghost devs = devices@;
    let mut out: Vec<ToolEntry> = Vec::new();
    let mut i: usize = 0;
    let mut rest = devices;
    assert(devs.take(0) =~= Seq::<DeviceTools>::empty());
    assert(rest@ =~= devs.skip(0));
    while rest.len() > 0
        invariant
            single == (devs.len() == 1),
            devs.len() <= usize::MAX,
            i <= devs.len(),
            rest@ == devs.skip(i as int),
            out@.map_values(|t: ToolEntry| t@) == aggregated(devs.take(i as int), single),
        decreases rest.len(),
    {
        let d = rest.remove(0);
        assert(d == devs[i as int]);
        assert(devs.take(i + 1).drop_last() =~= devs.take(i as int));
        assert(devs.take(i + 1).last() == d);
        assert(rest@ =~= devs.skip(i + 1));
        let ghost before = out@.map_values(|t: ToolEntry| t@);
        let ghost av = d.alias@;
        let alias = d.alias;
        match d.tools {
            Some(tools) => {
                let ghost tv = tools@;
                assert(tools.len() <= usize::MAX);
                let mut ts = tools;
                let mut j: usize = 0;
                while ts.len() > 0
                    invariant
                        j <= tv.len(),
                        tv.len() <= usize::MAX,
                        alias@ == av,
                        ts@ == tv.skip(j as int),
                        out@.map_values(|t: ToolEntry| t@) == before + tv.take(j as int).map_values(
                            |t: ToolEntry| exposed(single, av, t@),
                        ),
                    decreases ts.len(),
                {
                    let t = ts.remove(0);
                    assert(t == tv[j as int]);
                    let ghost prev = out@;
                    let e = expose_tool(single, alias.as_str(), t);
                    out.push(e);
                    assert(ts@ =~= tv.skip(j + 1));
                    assert(tv.take(j + 1).map_values(|t: ToolEntry| exposed(single, av, t@)) =~= tv.take(
                        j as int,
                    ).map_values(|t: ToolEntry| exposed(single, av, t@)).push(exposed(single, av, tv[j as int]@)));
                    assert(out@.map_values(|t: ToolEntry| t@) =~= prev.map_values(|t: ToolEntry| t@).push(e@));
                    assert(out@.map_values(|t: ToolEntry| t@) =~= before + tv.take(j + 1).map_values(
                        |t: ToolEntry| exposed(single, av, t@),
                    ));
                    j = j + 1;
                }
                assert(tv.take(j as int) =~= tv);
                assert(aggregated(devs.take(i + 1), single) == aggregated(devs.take(i as int), single)
                    + tv.map_values(|t: ToolEntry| exposed(single, av, t@)));
            },
            None => {
                assert(out@.map_values(|t: ToolEntry| t@) =~= before + Seq::<ToolView>::empty());
            },
        }
        i = i + 1;
    }
    assert(devs.take(i as int) =~= devs);
    out
}

/// Where a tool call goes: the device's position among the online
/// connections, and the tool's name on that device.
#[derive(Debug)]
pub struct ToolRoute {
    pub device: usize,
    pub tool_name: String,
}

/// Why a tool call cannot be routed.
#[derive(Debug)]
pub enum RouteError {
    /// No device is online.
    NoDevices { tool: String },
    /// Several devices are online and the name has no `alias:` prefix.
    MissingAlias,
    /// No online device has this alias.
    UnknownDevice { alias: String },
}

impl RouteError {
    /// The message of the invalid-params error the gateway answers with.
    pub fn message(&self) -> (m: String)
        ensures
            m@ == match *self {
                RouteError::NoDevices { tool } => "Tool '"@ + tool@ + "' not found (no devices connected)"@,
                RouteError::MissingAlias => "Tool name must be prefixed with device alias (e.g., 'mac:tool_name')"@,
                RouteError::UnknownDevice { alias } => "Device '"@ + alias@ + "' not found or offline"@,
            },
    {
        match self {
            RouteError::NoDevices { tool } => {
                let mut m = "Tool '".to_string();
                m.append(tool.as_str());
                m.append("' not found (no devices connected)");
                m
            },
            RouteError::MissingAlias => "Tool name must be prefixed with device alias (e.g., 'mac:tool_name')".to_string(),
            RouteError::UnknownDevice { alias } => {
                let mut m = "Device '".to_string();
                m.append(alias.as_str());
                m.append("' not found or offline");
                m
            },
        }
    }
}

/// `p` is the position of the first `:` of `s`.
pub open spec fn first_colon_at(s: Seq<char>, p: int) -> bool {
    0 <= p < s.len() && s[p] == ':' && forall|q: int| 0 <= q < p ==> s[q] != ':'
}

/// `s` holds a `:`.
pub open spec fn has_colon(s: Seq<char>) -> bool {
    exists|p: int| 0 <= p < s.len() && s[p] == ':'
}

/// The position of the first `:` of `s`.
pub open spec fn first_colon(s: Seq<char>) -> int {
    choose|p: int| first_colon_at(s, p)
}

/// `i` is the first position of `alias` in `aliases`.
pub open spec fn first_alias_at(aliases: Seq<Seq<char>>, alias: Seq<char>, i: int) -> bool {
    0 <= i < aliases.len() && aliases[i] == alias && forall|j: int| 0 <= j < i ==> aliases[j] != alias
}

/// The route of a call of `name` when the devices online have `aliases`.
pub open spec fn route_ok(aliases: Seq<Seq<char>>, name: Seq<char>, device: int, tool: Seq<char>) -> bool {
    if aliases.len() == 1 {
        device == 0 && tool == name
    } else {
        let p = first_colon(name);
        &&& has_colon(name)
        &&& first_alias_at(aliases, name.subrange(0, p), device)
        &&& tool == name.subrange(p + 1, name.len() as int)
    }
}

/// The position of the first `:` of `s`, if any.
fn find_colon(s: &Vec<char>) -> (r: Option<usize>)
    ensures
        match r {
            Some(p) => first_colon_at(s@, p as int),
            None => !has_colon(s@),
        },
{
    let mut p: usize = 0;
    while p < s.len()
        invariant
            p <= s.len(),
            forall|q: int| 0 <= q < p ==> s@[q] != ':',
        decreases s.len() - p,
    {
        if s[p] == ':' {
            return Some(p);
        }
        p = p + 1;
    }
    None
}

/// The elements of `s` from `a` to `b`.
fn slice_chars(s: &Vec<char>, a: usize, b: usize) -> (r: Vec<char>)
    requires
        a <= b <= s.len(),
    ensures
        r@ == s@.subrange(a as int, b as int),
{
    let mut r: Vec<char> = Vec::new();
    let mut i = a;
    while i < b
        invariant
            a <= i <= b <= s.len(),
            r@ == s@.subrange(a as int, i as int),
        decreases b - i,
    {
        r.push(s[i]);
        i = i + 1;
        assert(r@ =~= s@.subrange(a as int, i as int));
    }
    r
}

/// Where the call of tool `name` goes when the devices online have
/// `aliases`, in the order of the gateway's connections: with none, the
/// tool is not found; with one, it goes there unchanged; with several,
/// the text before the first `:` names the device (the first with that
/// alias) and the text after it the tool.
pub fn route_tool_call(aliases: &Vec<String>, name: &str) -> (r: Result<ToolRoute, RouteError>)
    ensures
        aliases@.len() == 0 ==> (r matches Err(RouteError::NoDevices { tool }) && tool@ == name@),
        aliases@.len() > 0 ==> match r {
            Ok(route) => route_ok(aliases.deep_view(), name@, route.device as int, route.tool_name@),
            Err(RouteError::MissingAlias) => aliases@.len() > 1 && !has_colon(name@),
            Err(RouteError::UnknownDevice { alias }) => {
                &&& aliases@.len() > 1
                &&& has_colon(name@)
                &&& alias@ == name@.subrange(0, first_colon(name@))
                &&& !aliases.deep_view().contains(alias@)
            },
            Err(RouteError::NoDevices { .. }) => false,
        },
{
    if aliases.len() == 0 {
        return Err(RouteError::NoDevices { tool: name.to_string() });
    }
    if aliases.len() == 1 {
        return Ok(ToolRoute { device: 0, tool_name: name.to_string() });
    }
    let chars = chars_of(name);
    let p = match find_colon(&chars) {
        Some(p) => p,
        None => {
            return Err(RouteError::MissingAlias);
        },
    };
    proof {
        assert(first_colon_at(name@, p as int));
        let c = first_colon(name@);
        assert(first_colon_at(name@, c));
        assert(c == p);
    }
    assert(p < chars.len());
    let alias_chars = slice_chars(&chars, 0, p);
    let tool_chars = slice_chars(&chars, p + 1, chars.len());
    let alias = string_of(&alias_chars);
    let mut i: usize = 0;
    while i < aliases.len()
        invariant
            i <= aliases.len(),
            aliases.len() > 1,
            p < name@.len(),
            has_colon(name@),
            first_colon(name@) == p,
            tool_chars@ == name@.subrange(p + 1, name@.len() as int),
            alias@ == name@.subrange(0, p as int),
            forall|j: int| 0 <= j < i ==> #[trigger] aliases@[j]@ != alias@,
        decreases aliases.len() - i,
    {
        if aliases[i] == alias {
            proof {
                assert(aliases.deep_view()[i as int] == alias@);
                assert forall|j: int| 0 <= j < i implies aliases.deep_view()[j] != alias@ by {
                    assert(aliases.deep_view()[j] == aliases@[j]@);
                }
            }
            return Ok(ToolRoute { device: i, tool_name: string_of(&tool_chars) });
        }
        i = i + 1;
    }
    proof {
        assert forall|j: int| 0 <= j < aliases.deep_view().len() implies aliases.deep_view()[j] != alias@ by {
            assert(aliases.deep_view()[j] == aliases@[j]@);
        }
    }
    Err(RouteError::UnknownDevice { alias })
}

/// The call of a tool under the name the gateway offered it with reaches
/// that tool: with one device, the device itself; with several (whose
/// aliases hold no `:`, as device aliases never do), the first device with
/// the same alias, under the tool's own name.
pub proof fn law_offered_name_routes_back(aliases: Seq<Seq<char>>, d: int, tool: Seq<char>)
    requires
        0 <= d < aliases.len(),
        forall|i: int, q: int| 0 <= i < aliases.len() && 0 <= q < aliases[i].len() ==> aliases[i][q] != ':',
    ensures
        exists|device: int|
            #![trigger aliases[device]]
            route_ok(aliases, exposed_name(aliases.len() == 1, aliases[d], tool), device, tool)
                && aliases[device] == aliases[d],
{
    let single = aliases.len() == 1;
    let name = exposed_name(single, aliases[d], tool);
    if single {
        assert(d == 0);
        assert(route_ok(aliases, name, 0, tool));
    } else {
        let a = aliases[d];
        let p = a.len() as int;
        reveal_strlit(":");
        assert(name == a + ":"@ + tool);
        assert(name[p] == ':');
        assert forall|q: int| 0 <= q < p implies name[q] != ':' by {
            assert(name[q] == a[q]);
        }
        assert(first_colon_at(name, p));
        assert(has_colon(name));
        let c = first_colon(name);
        assert(first_colon_at(name, c));
        assert(c == p) by {
            if c < p {
                assert(name[c] != ':');
            }
            if p < c {
                assert(name[p] != ':');
            }
        }
        assert(name.subrange(0, p) =~= a);
        assert(name.subrange(p + 1, name.len() as int) =~= tool);
        let first = choose|i: int| 0 <= i < aliases.len() && aliases[i] == a && forall|j: int| 0 <= j < i ==> aliases[j] != a;
        assert(exists|i: int| 0 <= i < aliases.len() && aliases[i] == a && forall|j: int| 0 <= j < i ==> aliases[j] != a) by {
            lemma_first_occurrence(aliases, a, d);
        }
        assert(first_alias_at(aliases, a, first));
        assert(route_ok(aliases, name, first, tool));
    }
}

/// An element of a sequence has a first occurrence.
pub proof fn lemma_first_occurrence(s: Seq<Seq<char>>, a: Seq<char>, d: int)
    requires
        0 <= d < s.len(),
        s[d] == a,
    ensures
        exists|i: int| 0 <= i < s.len() && s[i] == a && forall|j: int| 0 <= j < i ==> s[j] != a,
    decreases d,
{
    if exists|j: int| 0 <= j < d && s[j] == a {
        let j = choose|j: int| 0 <= j < d && s[j] == a;
        lemma_first_occurrence(s, a, j);
    } else {
        assert(forall|j: int| 0 <= j < d ==> s[j] != a);
    }
}

} // verus!
