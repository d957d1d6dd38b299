//! Tools of other servers: what they are called here, and what they answer.
use vstd::prelude::*;

use crate::config::McpServerConfig;
use crate::data;
use crate::text;
use crate::workflow;

verus! {

/// How long the name of a tool may be.
pub const MAX_VISIBLE_NAME_LEN: usize = 64;

/// How much of the name of a server stands in the name of a tool, where that would be too long.
pub const SERVER_COMPONENT_CAP: usize = 24;

/// A character as it stands in the name of a tool.
pub open spec fn name_char(c: char) -> char {
    if workflow::is_plain(c) {
        c
    } else {
        '_'
    }
}

/// A text as it stands in the name of a tool, with all its characters.
pub open spec fn name_chars(value: Seq<char>) -> Seq<char> {
    value.map_values(|c: char| name_char(c))
}

/// A name in plain characters: others become underscores, and none stand at its ends.
pub open spec fn normal_id(value: Seq<char>) -> Seq<char> {
    text::trim_char_of(name_chars(value), '_')
}

/// A name in plain characters, or else `fallback`.
pub open spec fn component_of(value: Seq<char>, fallback: Seq<char>) -> Seq<char> {
    if normal_id(value).len() == 0 {
        fallback
    } else {
        normal_id(value)
    }
}

impl McpServerConfig {
    /// Computes `normal_id`.
    pub fn normalized_id(value: &str) -> (res: String)
        ensures
            res@ == normal_id(value@),
    {
        let chars = text::chars_of(value);
        let mut plain: Vec<char> = Vec::new();
        for i in 0..chars.len()
            invariant
                chars@ == value@,
                plain@ == name_chars(value@).take(i as int),
        {
            let c = chars[i];
            if text::alphanumeric(c) || c == '_' || c == '-' {
                plain.push(c);
            } else {
                plain.push('_');
            }
            proof {
                assert(plain@ =~= name_chars(value@).take(i + 1));
            }
        }
        proof {
            assert(name_chars(value@).take(value@.len() as int) =~= name_chars(value@));
        }
        let text = text::string_of(&plain);
        text::trim_char(text.as_str(), '_').to_owned()
    }

    /// What the names of the tools of this server start with.
    pub fn tool_prefix(&self) -> (res: String)
        ensures
            res@ == "mcp__"@ + normal_id(self.id@) + "__"@,
    {
        let id = Self::normalized_id(self.id.as_str());
        text::concat3("mcp__", id.as_str(), "__")
    }
}

/// A normal name stays as it is.
pub proof fn normal_ids_are_plain(value: Seq<char>)
    ensures
        forall|i: int|
            0 <= i < normal_id(value).len() ==> workflow::is_plain(#[trigger] normal_id(value)[i]),
        normal_id(normal_id(value)) == normal_id(value),
{
    let chars = name_chars(value);
    let id = normal_id(value);
    text::trim_char_is_part(chars, '_');
    assert forall|i: int| 0 <= i < id.len() implies workflow::is_plain(#[trigger] id[i]) by {
        let k = choose|k: int| 0 <= k < chars.len() && chars[k] == id[i];
        assert(chars[k] == name_char(value[k]));
    }
    assert(name_chars(id) =~= id);
}

/// Computes `component_of`.
pub fn normalized_component(value: &str, fallback: &str) -> (res: String)
    ensures
        res@ == component_of(value@, fallback@),
{
    let normalized = McpServerConfig::normalized_id(value);
    if normalized.as_str().unicode_len() == 0 {
        fallback.to_owned()
    } else {
        normalized
    }
}

/// The first `max_len` characters of a text, or all where there are fewer.
pub open spec fn cut(value: Seq<char>, max_len: nat) -> Seq<char> {
    if value.len() <= max_len {
        value
    } else {
        value.take(max_len as int)
    }
}

/// Computes `cut`.
pub fn truncate_ascii(value: &str, max_len: usize) -> (res: String)
    ensures
        res@ == cut(value@, max_len as nat),
{
    if value.unicode_len() <= max_len {
        value.to_owned()
    } else {
        let start = value.substring_char(0, max_len);
        proof {
            assert(start@ =~= value@.take(max_len as int));
        }
        start.to_owned()
    }
}

/// The last `size` bytes of a number, the lowest first.
pub open spec fn le_bytes(n: nat, size: nat) -> Seq<u8>
    decreases size,
{
    if size == 0 {
        Seq::empty()
    } else {
        seq![(n % 256) as u8] + le_bytes(n / 256, (size - 1) as nat)
    }
}

/// How many bytes a `usize` takes.
pub open spec fn word_size() -> nat {
    (usize::BITS / 8) as nat
}

/// One step of the hash: takes in one byte.
pub open spec fn hash_step(hash: u32, byte: u8) -> u32 {
    (hash ^ byte as u32).wrapping_mul(0x0100_0193)
}

/// The hash of these bytes, going on from `hash`.
pub open spec fn hash_from(hash: u32, bytes: Seq<u8>) -> u32
    decreases bytes.len(),
{
    if bytes.len() == 0 {
        hash
    } else {
        hash_step(hash_from(hash, bytes.drop_last()), bytes.last())
    }
}

/// What the hash of a tool takes in before the number of the attempt.
pub open spec fn hash_head(server_id: Seq<char>, tool: Seq<char>, index: nat) -> Seq<u8> {
    vstd::utf8::encode_utf8(server_id) + seq![0u8] + vstd::utf8::encode_utf8(tool) + seq![0u8]
        + le_bytes(index, word_size()) + seq![0u8]
}

/// The hash of a tool and an attempt to name it, by FNV-1a.
pub open spec fn tool_hash(
    server_id: Seq<char>,
    tool: Seq<char>,
    index: nat,
    attempt: nat,
) -> u32 {
    hash_from(0x811c_9dc5, hash_head(server_id, tool, index) + le_bytes(attempt, word_size()))
}

/// Takes these bytes into a hash.
proof fn hash_goes_on(hash: u32, first: Seq<u8>, second: Seq<u8>)
    ensures
        hash_from(hash, first + second) == hash_from(hash_from(hash, first), second),
    decreases second.len(),
{
    if second.len() == 0 {
        assert(first + second =~= first);
    } else {
        hash_goes_on(hash, first, second.drop_last());
        assert((first + second).drop_last() =~= first + second.drop_last());
    }
}

/// Takes the bytes of a slice into a hash.
fn hash_bytes(hash: u32, bytes: &[u8]) -> (res: u32)
    ensures
        res == hash_from(hash, bytes@),
{
    let mut next: u32 = hash;
    proof {
        assert(bytes@.take(0) =~= Seq::empty());
    }
    for i in 0..bytes.len()
        invariant
            next == hash_from(hash, bytes@.take(i as int)),
    {
        proof {
            assert(bytes@.take(i + 1).drop_last() =~= bytes@.take(i as int));
        }
        next = (next ^ bytes[i] as u32).wrapping_mul(0x0100_0193);
    }
    proof {
        assert(bytes@.take(bytes@.len() as int) =~= bytes@);
    }
    next
}

/// The bytes of a number, the lowest first.
fn bytes_of(n: usize) -> (res: Vec<u8>)
    ensures
        res@ == le_bytes(n as nat, word_size()),
{
    let mut res: Vec<u8> = Vec::new();
    let mut rest: usize = n;
    let size: u32 = usize::BITS / 8;
    for i in 0..size
        invariant
            size == usize::BITS / 8,
            res@ + le_bytes(rest as nat, (size - i) as nat) == le_bytes(n as nat, size as nat),
    {
        let ghost before = res@;
        res.push((rest % 256) as u8);
        proof {
            let bytes = le_bytes(rest as nat, (size - i) as nat);
            assert(bytes == seq![(rest as nat % 256) as u8] + le_bytes(
                rest as nat / 256,
                (size - i - 1) as nat,
            ));
            assert(before + bytes =~= before.push((rest as nat % 256) as u8) + le_bytes(
                rest as nat / 256,
                (size - i - 1) as nat,
            ));
        }
        rest = rest / 256;
    }
    proof {
        assert(res@ + le_bytes(rest as nat, 0) =~= res@);
    }
    res
}

/// Computes `tool_hash`.
pub fn stable_hash32(server_id: &str, remote_tool_name: &str, index: usize, attempt: usize) -> (res:
    u32)
    ensures
        res == tool_hash(server_id@, remote_tool_name@, index as nat, attempt as nat),
{
    let zero: Vec<u8> = vec![0];
    let hash: u32 = hash_bytes(0x811c_9dc5, server_id.as_bytes());
    let hash: u32 = hash_bytes(hash, zero.as_slice());
    let hash: u32 = hash_bytes(hash, remote_tool_name.as_bytes());
    let hash: u32 = hash_bytes(hash, zero.as_slice());
    let hash: u32 = hash_bytes(hash, bytes_of(index).as_slice());
    let hash: u32 = hash_bytes(hash, zero.as_slice());
    let hash: u32 = hash_bytes(hash, bytes_of(attempt).as_slice());
    proof {
        let start = 0x811c_9dc5u32;
        let a = vstd::utf8::encode_utf8(server_id@);
        let b = vstd::utf8::encode_utf8(remote_tool_name@);
        let c = le_bytes(index as nat, word_size());
        let d = le_bytes(attempt as nat, word_size());
        let z = seq![0u8];
        assert(zero@ =~= z);
        hash_goes_on(start, a, z);
        hash_goes_on(start, a + z, b);
        hash_goes_on(start, a + z + b, z);
        hash_goes_on(start, a + z + b + z, c);
        hash_goes_on(start, a + z + b + z + c, z);
        hash_goes_on(start, a + z + b + z + c + z, d);
    }
    hash
}

/// A hexadecimal digit.
pub open spec fn hex_digit(d: nat) -> char {
    if d < 10 {
        (('0' as nat) + d) as char
    } else {
        (('a' as nat) + (d - 10)) as char
    }
}

/// The last `size` hexadecimal digits of a number.
pub open spec fn hex_of(n: nat, size: nat) -> Seq<char>
    decreases size,
{
    if size == 0 {
        Seq::empty()
    } else {
        hex_of(n / 16, (size - 1) as nat).push(hex_digit(n % 16))
    }
}

/// Computes `hex_digit`.
fn hex_char(d: u32) -> (res: char)
    requires
        d < 16,
    ensures
        res == hex_digit(d as nat),
{
    if d < 10 {
        (48 + d as u8) as char
    } else {
        (87 + d as u8) as char
    }
}

/// The eight hexadecimal digits of a number.
fn hex8(n: u32) -> (res: String)
    ensures
        res@ == hex_of(n as nat, 8),
{
    let mut digits: Vec<char> = Vec::new();
    let mut rest: u32 = n;
    proof {
        assert(hex_of(n as nat, 8) =~= hex_of(rest as nat, 8) + digits@.reverse());
    }
    for i in 0..8u32
        invariant
            hex_of(n as nat, 8) == hex_of(rest as nat, (8 - i) as nat) + digits@.reverse(),
    {
        let ghost before = digits@;
        digits.push(hex_char(rest % 16));
        proof {
            let head = hex_of(rest as nat / 16, (8 - i - 1) as nat);
            assert(hex_of(rest as nat, (8 - i) as nat) == head.push(hex_digit(rest as nat % 16)));
            assert(head.push(hex_digit(rest as nat % 16)) + before.reverse() =~= head
                + digits@.reverse());
        }
        rest = rest / 16;
    }
    proof {
        assert(hex_of(rest as nat, 0) + digits@.reverse() =~= digits@.reverse());
        assert(digits@.len() == 8) by {
            hex_len(n as nat, 8);
        }
    }
    let mut res = String::new();
    let mut k: usize = digits.len();
    proof {
        assert(digits@.reverse().take(0) =~= Seq::empty());
        assert(res@ =~= Seq::empty());
    }
    while k > 0
        invariant
            k <= digits@.len(),
            res@ == digits@.reverse().take(digits@.len() - k),
        decreases k,
    {
        k = k - 1;
        res.push(digits[k]);
        proof {
            assert(res@ =~= digits@.reverse().take(digits@.len() - k));
        }
    }
    proof {
        assert(digits@.reverse().take(digits@.len() as int) =~= digits@.reverse());
    }
    res
}

/// There are as many digits as are asked for.
proof fn hex_len(n: nat, size: nat)
    ensures
        hex_of(n, size).len() == size,
    decreases size,
{
    if size > 0 {
        hex_len(n / 16, (size - 1) as nat);
    }
}

/// The name of a tool, where that is short enough and free.
pub open spec fn plain_name(server_id: Seq<char>, tool: Seq<char>) -> Seq<char> {
    "mcp__"@ + component_of(server_id, "server"@) + "__"@ + component_of(tool, "tool"@)
}

/// The part of the server in the name of a tool that is cut short.
pub open spec fn short_server(server_id: Seq<char>) -> Seq<char> {
    cut(component_of(server_id, "server"@), SERVER_COMPONENT_CAP as nat)
}

/// What the name of a tool starts with that is cut short to leave room for a hash.
pub open spec fn short_name(server_id: Seq<char>, tool: Seq<char>) -> Seq<char> {
    let server = short_server(server_id);
    "mcp__"@ + server + "__"@ + cut(component_of(tool, "tool"@), (48 - server.len()) as nat) + "_"@
}

/// The name of a tool with a hash, which tells it from others that are cut short to the same.
pub open spec fn hashed_name(
    server_id: Seq<char>,
    tool: Seq<char>,
    index: nat,
    attempt: nat,
) -> Seq<char> {
    short_name(server_id, tool) + hex_of(tool_hash(server_id, tool, index, attempt) as nat, 8)
}

/// Whether `name` is the name of a tool, with these names in use: the plain one, where it is short
/// enough and free, else that of the first attempt that is free.
pub open spec fn is_visible_name(
    name: Seq<char>,
    server_id: Seq<char>,
    tool: Seq<char>,
    index: nat,
    used: Seq<Seq<char>>,
) -> bool {
    let plain = plain_name(server_id, tool);
    if plain.len() <= MAX_VISIBLE_NAME_LEN && !used.contains(plain) {
        name == plain
    } else {
        exists|attempt: nat|
            {
                &&& name == #[trigger] hashed_name(server_id, tool, index, attempt)
                &&& !used.contains(name)
                &&& forall|earlier: nat|
                    earlier < attempt ==> used.contains(
                        #[trigger] hashed_name(server_id, tool, index, earlier),
                    )
            }
    }
}

/// Whether every name that a tool could have is in use.
pub open spec fn is_exhausted(
    server_id: Seq<char>,
    tool: Seq<char>,
    index: nat,
    used: Seq<Seq<char>>,
) -> bool {
    let plain = plain_name(server_id, tool);
    &&& plain.len() > MAX_VISIBLE_NAME_LEN || used.contains(plain)
    &&& forall|attempt: nat|
        attempt <= usize::MAX ==> used.contains(
            #[trigger] hashed_name(server_id, tool, index, attempt),
        )
}

/// Whether a name is in use.
fn is_used(used: &Vec<String>, name: &String) -> (res: bool)
    ensures
        res == used.deep_view().contains(name@),
{
    for i in 0..used.len()
        invariant
            forall|j: int| 0 <= j < i ==> #[trigger] used.deep_view()[j] != name@,
    {
        assert(used.deep_view()[i as int] == used@[i as int]@);
        if used[i] == *name {
            return true;
        }
    }
    false
}

/// Computes `hashed_name`.
fn hashed_tool_name(
    server: &str,
    tool: &str,
    server_id: &str,
    remote_tool_name: &str,
    index: usize,
    attempt: usize,
) -> (res: String)
    requires
        server@ == component_of(server_id@, "server"@),
        tool@ == component_of(remote_tool_name@, "tool"@),
    ensures
        res@ == hashed_name(server_id@, remote_tool_name@, index as nat, attempt as nat),
{
    let hash: u32 = stable_hash32(server_id, remote_tool_name, index, attempt);
    let visible_server = truncate_ascii(server, SERVER_COMPONENT_CAP);
    let tool_budget: usize = 48 - visible_server.as_str().unicode_len();
    let visible_tool = truncate_ascii(tool, tool_budget);
    let start = text::concat5(
        "mcp__",
        visible_server.as_str(),
        "__",
        visible_tool.as_str(),
        "_",
    );
    text::concat2(start.as_str(), hex8(hash).as_str())
}

/// Names a tool, and marks the name as used. There is none where every name that the tool could
/// have is in use.
pub fn visible_tool_name(
    server_id: &str,
    remote_tool_name: &str,
    index: usize,
    used_visible_names: &mut Vec<String>,
) -> (res: Option<String>)
    ensures
        match res {
            Some(name) => {
                &&& is_visible_name(
                    name@,
                    server_id@,
                    remote_tool_name@,
                    index as nat,
                    old(used_visible_names).deep_view(),
                )
                &&& final(used_visible_names).deep_view() == old(
                    used_visible_names,
                ).deep_view().push(name@)
            },
            None => {
                &&& is_exhausted(
                    server_id@,
                    remote_tool_name@,
                    index as nat,
                    old(used_visible_names).deep_view(),
                )
                &&& *final(used_visible_names) == *old(used_visible_names)
            },
        },
{
    let server = normalized_component(server_id, "server");
    let tool = normalized_component(remote_tool_name, "tool");
    let unsuffixed = text::concat4("mcp__", server.as_str(), "__", tool.as_str());
    if unsuffixed.as_str().unicode_len() <= MAX_VISIBLE_NAME_LEN && !is_used(
        used_visible_names,
        &unsuffixed,
    ) {
        data::append(used_visible_names, unsuffixed.clone());
        return Some(unsuffixed);
    }
    let ghost used = used_visible_names.deep_view();
    let mut attempt: usize = 0;
    loop
        invariant
            server@ == component_of(server_id@, "server"@),
            tool@ == component_of(remote_tool_name@, "tool"@),
            unsuffixed@ == plain_name(server_id@, remote_tool_name@),
            unsuffixed@.len() > MAX_VISIBLE_NAME_LEN || used.contains(unsuffixed@),
            *used_visible_names == *old(used_visible_names),
            used == old(used_visible_names).deep_view(),
            forall|earlier: nat|
                earlier < attempt ==> used.contains(
                    #[trigger] hashed_name(server_id@, remote_tool_name@, index as nat, earlier),
                ),
        decreases usize::MAX - attempt,
    {
        let candidate = hashed_tool_name(
            server.as_str(),
            tool.as_str(),
            server_id,
            remote_tool_name,
            index,
            attempt,
        );
        if !is_used(used_visible_names, &candidate) {
            data::append(used_visible_names, candidate.clone());
            return Some(candidate);
        }
        if attempt == usize::MAX {
            return None;
        }
        attempt = attempt + 1;
    }
}

/// A tool as its server describes it. The schema is JSON.
#[derive(Debug, Clone, PartialEq, Eq)]
pub struct McpToolDefinition {
    pub name: String,
    pub description: String,
    pub input_schema: String,
}

/// A tool as it is offered here.
#[derive(Debug, Clone, PartialEq, Eq)]
pub struct ToolSpec {
    pub name: String,
    pub description: String,
    pub input_schema: String,
}

/// A tool of another server.
#[derive(Debug, Clone, PartialEq, Eq)]
pub struct McpDiscoveredTool {
    pub server_id: String,
    pub tool_name: String,
    pub spec: ToolSpec,
}

impl McpDiscoveredTool {
    /// Whether this is the tool that `definition` describes, on the server `server_id`.
    pub open spec fn is_of(self, server_id: Seq<char>, definition: McpToolDefinition) -> bool {
        &&& self.server_id@ == server_id
        &&& self.tool_name@ == definition.name@
        &&& self.spec.description@ == definition.description@
        &&& self.spec.input_schema@ == definition.input_schema@
    }
}

/// The names of these tools.
pub open spec fn names_of(tools: Seq<McpDiscoveredTool>) -> Seq<Seq<char>> {
    tools.map_values(|tool: McpDiscoveredTool| tool.spec.name@)
}

/// Whether `tools` are those that `definitions` describe, named one after the other.
pub open spec fn are_discovered(
    tools: Seq<McpDiscoveredTool>,
    server_id: Seq<char>,
    definitions: Seq<McpToolDefinition>,
    used: Seq<Seq<char>>,
) -> bool {
    &&& tools.len() <= definitions.len()
    &&& forall|i: int|
        0 <= i < tools.len() ==> {
            &&& (#[trigger] tools[i]).is_of(server_id, definitions[i])
            &&& is_visible_name(
                tools[i].spec.name@,
                server_id,
                definitions[i].name@,
                i as nat,
                used + names_of(tools.take(i)),
            )
        }
}

/// Names the tools of a server. There are none where one of them could not be named.
pub fn discovered_tools(
    config: &McpServerConfig,
    definitions: Vec<McpToolDefinition>,
    used_visible_names: &mut Vec<String>,
) -> (res: Option<Vec<McpDiscoveredTool>>)
    ensures
        match res {
            Some(tools) => {
                &&& tools@.len() == definitions@.len()
                &&& are_discovered(
                    tools@,
                    config.id@,
                    definitions@,
                    old(used_visible_names).deep_view(),
                )
                &&& final(used_visible_names).deep_view() == old(used_visible_names).deep_view()
                    + names_of(tools@)
            },
            None => exists|tools: Seq<McpDiscoveredTool>|
                {
                    &&& tools.len() < definitions@.len()
                    &&& #[trigger] are_discovered(
                        tools,
                        config.id@,
                        definitions@,
                        old(used_visible_names).deep_view(),
                    )
                    &&& is_exhausted(
                        config.id@,
                        definitions@[tools.len() as int].name@,
                        tools.len(),
                        old(used_visible_names).deep_view() + names_of(tools),
                    )
                    &&& final(used_visible_names).deep_view() == old(
                        used_visible_names,
                    ).deep_view() + names_of(tools)
                },
        },
{
    let ghost used = used_visible_names.deep_view();
    let mut tools: Vec<McpDiscoveredTool> = Vec::new();
    proof {
        assert(used_visible_names.deep_view() =~= used + names_of(tools@));
    }
    for i in 0..definitions.len()
        invariant
            tools@.len() == i,
            used == old(used_visible_names).deep_view(),
            are_discovered(tools@, config.id@, definitions@, used),
            used_visible_names.deep_view() == used + names_of(tools@),
    {
        let definition = &definitions[i];
        let ghost before = tools@;
        let name = match visible_tool_name(
            config.id.as_str(),
            definition.name.as_str(),
            i,
            used_visible_names,
        ) {
            Some(name) => name,
            None => return None,
        };
        tools.push(
            McpDiscoveredTool {
                server_id: config.id.clone(),
                tool_name: definition.name.clone(),
                spec: ToolSpec {
                    name,
                    description: definition.description.clone(),
                    input_schema: definition.input_schema.clone(),
                },
            },
        );
        proof {
            assert(names_of(tools@) =~= names_of(before).push(name@));
            assert(used_visible_names.deep_view() =~= used + names_of(tools@));
            assert(tools@.take(i as int) =~= before);
            assert forall|j: int| 0 <= j < tools@.len() implies {
                &&& (#[trigger] tools@[j]).is_of(config.id@, definitions@[j])
                &&& is_visible_name(
                    tools@[j].spec.name@,
                    config.id@,
                    definitions@[j].name@,
                    j as nat,
                    used + names_of(tools@.take(j)),
                )
            } by {
                if j < i {
                    assert(tools@[j] == before[j]);
                    assert(tools@.take(j) =~= before.take(j));
                }
            }
        }
    }
    Some(tools)
}

/// A number of hexadecimal digits tells the numbers apart that it can write.
proof fn hex_tells_apart(a: nat, b: nat, size: nat)
    requires
        a < vstd::arithmetic::power::pow(16, size),
        b < vstd::arithmetic::power::pow(16, size),
        hex_of(a, size) == hex_of(b, size),
    ensures
        a == b,
    decreases size,
{
    if size == 0 {
        vstd::arithmetic::power::lemma_pow0(16);
    } else {
        let rest = (size - 1) as nat;
        let x = hex_of(a, size);
        let y = hex_of(b, size);
        vstd::arithmetic::power::lemma_pow1(16);
        vstd::arithmetic::power::lemma_pow_adds(16, 1, rest);
        assert(x.drop_last() =~= hex_of(a / 16, rest));
        assert(y.drop_last() =~= hex_of(b / 16, rest));
        assert(x.last() == y.last());
        assert(a % 16 == b % 16);
        hex_tells_apart(a / 16, b / 16, rest);
    }
}

/// The hash takes in bytes without losing what it took in before.
proof fn hash_step_tells_apart(a: u32, b: u32, byte: u8)
    requires
        hash_step(a, byte) == hash_step(b, byte),
    ensures
        a == b,
{
    let x = a ^ byte as u32;
    let y = b ^ byte as u32;
    product_tells_apart(x, y);
    let wide = byte as u32;
    assert(a ^ wide == b ^ wide ==> a == b) by (bit_vector);
}

/// Multiplying by an odd number can be undone.
proof fn product_tells_apart(x: u32, y: u32)
    requires
        x.wrapping_mul(0x0100_0193) == y.wrapping_mul(0x0100_0193),
    ensures
        x == y,
{
    let p: int = 0x0100_0193;
    let inverse: int = 0x359c_449b;
    let m: int = 0x1_0000_0000;
    assert((p * inverse) % m == 1);
    undone(x as int, p, inverse, m);
    undone(y as int, p, inverse, m);
    assert((x as int * p) % m == (y as int * p) % m);
}

proof fn undone(x: int, p: int, inverse: int, m: int)
    requires
        m > 1,
        0 <= x < m,
        (p * inverse) % m == 1,
    ensures
        (((x * p) % m) * inverse) % m == x,
{
    vstd::arithmetic::div_mod::lemma_mul_mod_noop_left(x * p, inverse, m);
    vstd::arithmetic::mul::lemma_mul_is_associative(x, p, inverse);
    vstd::arithmetic::div_mod::lemma_mul_mod_noop_right(x, p * inverse, m);
    vstd::arithmetic::div_mod::lemma_small_mod(x as nat, m as nat);
}

/// The hash tells apart what it took in before, whatever it takes in after.
proof fn hash_tells_apart(a: u32, b: u32, bytes: Seq<u8>)
    requires
        hash_from(a, bytes) == hash_from(b, bytes),
    ensures
        a == b,
    decreases bytes.len(),
{
    if bytes.len() > 0 {
        hash_step_tells_apart(
            hash_from(a, bytes.drop_last()),
            hash_from(b, bytes.drop_last()),
            bytes.last(),
        );
        hash_tells_apart(a, b, bytes.drop_last());
    }
}

/// The hashes of the first 256 attempts to name a tool are all different.
pub proof fn attempts_differ(server_id: Seq<char>, tool: Seq<char>, index: nat, a: nat, b: nat)
    requires
        a < 256,
        b < 256,
        tool_hash(server_id, tool, index, a) == tool_hash(server_id, tool, index, b),
    ensures
        a == b,
{
    let head = hash_head(server_id, tool, index);
    let start = hash_from(0x811c_9dc5, head);
    let size = word_size();
    let rest = le_bytes(0, (size - 1) as nat);
    assert(usize::BITS == 32 || usize::BITS == 64);
    assert(a / 256 == 0 && b / 256 == 0);
    let first = seq![a as u8];
    let second = seq![b as u8];
    assert(le_bytes(a, size) =~= first + rest);
    assert(le_bytes(b, size) =~= second + rest);
    hash_goes_on(0x811c_9dc5, head, le_bytes(a, size));
    hash_goes_on(0x811c_9dc5, head, le_bytes(b, size));
    hash_goes_on(start, first, rest);
    hash_goes_on(start, second, rest);
    hash_tells_apart(hash_from(start, first), hash_from(start, second), rest);
    assert(first.drop_last() =~= Seq::empty());
    assert(second.drop_last() =~= Seq::empty());
    assert(hash_from(start, first) == hash_step(start, a as u8)) by {
        reveal_with_fuel(hash_from, 2);
    }
    assert(hash_from(start, second) == hash_step(start, b as u8)) by {
        reveal_with_fuel(hash_from, 2);
    }
    let wide_a = a as u8 as u32;
    let wide_b = b as u8 as u32;
    product_tells_apart(start ^ wide_a, start ^ wide_b);
    assert(start ^ wide_a == start ^ wide_b ==> wide_a == wide_b) by (bit_vector);
}

/// While fewer than 256 names are in use, there is one for every tool.
pub proof fn names_do_not_run_out(
    server_id: Seq<char>,
    tool: Seq<char>,
    index: nat,
    used: Seq<Seq<char>>,
)
    requires
        used.len() < 256,
    ensures
        !is_exhausted(server_id, tool, index, used),
{
    if is_exhausted(server_id, tool, index, used) {
        let names = Seq::new(256, |i: int| hashed_name(server_id, tool, index, i as nat));
        assert forall|i: int, j: int| 0 <= i < j < names.len() implies names[i] != names[j] by {
            if names[i] == names[j] {
                let head = short_name(server_id, tool);
                let x = tool_hash(server_id, tool, index, i as nat) as nat;
                let y = tool_hash(server_id, tool, index, j as nat) as nat;
                assert(names[i].skip(head.len() as int) =~= hex_of(x, 8));
                assert(names[j].skip(head.len() as int) =~= hex_of(y, 8));
                assert(vstd::arithmetic::power::pow(16, 8) == 0x1_0000_0000) by {
                    reveal_with_fuel(vstd::arithmetic::power::pow, 9);
                }
                hex_tells_apart(x, y, 8);
                attempts_differ(server_id, tool, index, i as nat, j as nat);
            }
        }
        assert(names.no_duplicates());
        names.unique_seq_to_set();
        used.lemma_cardinality_of_set();
        assert forall|name: Seq<char>| names.to_set().contains(name) implies used.to_set().contains(
            name,
        ) by {
            let i = names.index_of(name);
            assert(names[i] == name);
            assert(used.contains(hashed_name(server_id, tool, index, i as nat)));
        }
        vstd::seq_lib::seq_to_set_is_finite(used);
        vstd::set_lib::lemma_len_subset(names.to_set(), used.to_set());
        assert(false);
    }
}

/// The name of a tool is never one that is in use, is never too long, and tells by its start that the
/// tool is that of a server.
pub proof fn visible_names_are_short_and_new(
    name: Seq<char>,
    server_id: Seq<char>,
    tool: Seq<char>,
    index: nat,
    used: Seq<Seq<char>>,
)
    requires
        is_visible_name(name, server_id, tool, index, used),
    ensures
        !used.contains(name),
        name.len() <= MAX_VISIBLE_NAME_LEN,
        text::has_prefix(name, "mcp__"@),
{
    reveal_strlit("mcp__");
    reveal_strlit("__");
    reveal_strlit("_");
    let plain = plain_name(server_id, tool);
    if plain.len() <= MAX_VISIBLE_NAME_LEN && !used.contains(plain) {
        assert(name.take(5) =~= "mcp__"@);
    } else {
        let attempt = choose|attempt: nat|
            {
                &&& name == #[trigger] hashed_name(server_id, tool, index, attempt)
                &&& !used.contains(name)
                &&& forall|earlier: nat|
                    earlier < attempt ==> used.contains(
                        #[trigger] hashed_name(server_id, tool, index, earlier),
                    )
            };
        hex_len(tool_hash(server_id, tool, index, attempt) as nat, 8);
        assert(name.take(5) =~= "mcp__"@);
    }
}

/// No two tools of a server have the same name, and none has one that was in use.
pub proof fn tools_have_names_of_their_own(
    tools: Seq<McpDiscoveredTool>,
    server_id: Seq<char>,
    definitions: Seq<McpToolDefinition>,
    used: Seq<Seq<char>>,
)
    requires
        are_discovered(tools, server_id, definitions, used),
        used.no_duplicates(),
    ensures
        (used + names_of(tools)).no_duplicates(),
    decreases tools.len(),
{
    if tools.len() == 0 {
        assert(used + names_of(tools) =~= used);
    } else {
        let before = tools.drop_last();
        let i = tools.len() - 1;
        assert(before =~= tools.take(i));
        assert forall|j: int| 0 <= j < before.len() implies {
            &&& (#[trigger] before[j]).is_of(server_id, definitions[j])
            &&& is_visible_name(
                before[j].spec.name@,
                server_id,
                definitions[j].name@,
                j as nat,
                used + names_of(before.take(j)),
            )
        } by {
            assert(before[j] == tools[j]);
            assert(before.take(j) =~= tools.take(j));
        }
        tools_have_names_of_their_own(before, server_id, definitions, used);
        let taken = used + names_of(before);
        let name = tools[i].spec.name@;
        visible_names_are_short_and_new(name, server_id, definitions[i].name@, i as nat, taken);
        assert(used + names_of(tools) =~= taken.push(name));
        assert forall|j: int| 0 <= j < taken.len() implies taken[j] != name by {
            if taken[j] == name {
                assert(taken.contains(name));
            }
        }
    }
}

} // verus!
