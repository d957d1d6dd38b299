//! How the servers of tools and their tools are named, set up and shown.
use vstd::prelude::*;

use crate::config::McpServerConfigModel;
use crate::mcp;
use crate::mcp_runtime;
use crate::text;
use crate::workflow;

verus! {

/// Whether a text holds nothing but one character.
pub open spec fn is_all(s: Seq<char>, c: char) -> bool {
    forall|i: int| 0 <= i < s.len() ==> #[trigger] s[i] == c
}

proof fn start_is_cut(s: Seq<char>, c: char)
    ensures
        ({
            let rest = text::trim_char_start_of(s, c);
            &&& rest.len() <= s.len()
            &&& rest == s.skip(s.len() - rest.len())
            &&& is_all(s.take(s.len() - rest.len()), c)
        }),
    decreases s.len(),
{
    let rest = text::trim_char_start_of(s, c);
    if s.len() > 0 && s[0] == c {
        let tail = s.skip(1);
        start_is_cut(tail, c);
        let cut = s.len() - rest.len();
        assert(tail.skip(tail.len() - rest.len()) =~= s.skip(cut));
        assert forall|i: int| 0 <= i < cut implies #[trigger] s.take(cut)[i] == c by {
            if i > 0 {
                assert(s.take(cut)[i] == tail.take(cut - 1)[i - 1]);
            }
        }
    } else {
        assert(s.skip(0) =~= s);
    }
}

proof fn end_is_cut(s: Seq<char>, c: char)
    ensures
        ({
            let rest = text::trim_char_end_of(s, c);
            &&& rest.len() <= s.len()
            &&& rest == s.take(rest.len() as int)
            &&& is_all(s.skip(rest.len() as int), c)
        }),
    decreases s.len(),
{
    let rest = text::trim_char_end_of(s, c);
    if s.len() > 0 && s.last() == c {
        let front = s.drop_last();
        end_is_cut(front, c);
        let n = rest.len() as int;
        assert(front.take(n) =~= s.take(n));
        assert forall|i: int| 0 <= i < s.len() - n implies #[trigger] s.skip(n)[i] == c by {
            if i < s.len() - n - 1 {
                assert(s.skip(n)[i] == front.skip(n)[i]);
            }
        }
    } else {
        assert(s.take(s.len() as int) =~= s);
    }
}

/// Whether a text is what stands in another from a place on, with nothing but one character before
/// and behind it.
pub open spec fn is_cut_at(part: Seq<char>, s: Seq<char>, c: char, start: int) -> bool {
    &&& 0 <= start <= start + part.len() <= s.len()
    &&& s.subrange(start, start + part.len() as int) == part
    &&& is_all(s.take(start), c)
    &&& is_all(s.skip(start + part.len() as int), c)
}

/// A text trimmed of a character is what stands between those at both ends. It neither begins nor
/// ends with one itself.
pub proof fn trimming_takes_a_character_from_both_ends(s: Seq<char>, c: char)
    ensures
        ({
            let trimmed = text::trim_char_of(s, c);
            &&& exists|start: int| is_cut_at(trimmed, s, c, start)
            &&& trimmed.len() > 0 ==> trimmed[0] != c && trimmed.last() != c
        }),
{
    let rest = text::trim_char_start_of(s, c);
    let trimmed = text::trim_char_of(s, c);
    start_is_cut(s, c);
    end_is_cut(rest, c);
    text::trim_char_is_part(s, c);
    let start = s.len() - rest.len();
    let stop = start + trimmed.len() as int;
    assert(s.subrange(start, stop) =~= rest.take(trimmed.len() as int));
    assert(s.skip(stop) =~= rest.skip(trimmed.len() as int));
    assert(is_cut_at(trimmed, s, c, start));
}

/// A normal name holds the plain characters of the name in their places, with an underscore for
/// each other one, from the first that counts to the last.
pub proof fn normal_names_keep_plain_characters(value: Seq<char>)
    ensures
        ({
            let id = mcp::normal_id(value);
            exists|start: int|
                {
                    &&& 0 <= start <= start + id.len() <= value.len()
                    &&& forall|i: int|
                        0 <= i < id.len() ==> #[trigger] id[i] == if workflow::is_plain(
                            value[start + i],
                        ) {
                            value[start + i]
                        } else {
                            '_'
                        }
                    &&& forall|k: int|
                        0 <= k < value.len() && !(start <= k < start + id.len())
                            && workflow::is_plain(#[trigger] value[k]) ==> value[k] == '_'
                    &&& #[trigger] is_cut_at(id, mcp::name_chars(value), '_', start)
                }
        }),
{
    let chars = mcp::name_chars(value);
    let id = mcp::normal_id(value);
    trimming_takes_a_character_from_both_ends(chars, '_');
    let start = choose|start: int| is_cut_at(id, chars, '_', start);
    let stop = start + id.len() as int;
    assert forall|i: int| 0 <= i < id.len() implies #[trigger] id[i] == if workflow::is_plain(
        value[start + i],
    ) {
        value[start + i]
    } else {
        '_'
    } by {
        assert(id[i] == chars.subrange(start, stop)[i]);
    }
    assert forall|k: int|
        0 <= k < value.len() && !(start <= k < start + id.len()) && workflow::is_plain(
            #[trigger] value[k],
        ) implies value[k] == '_' by {
        if k < start {
            assert(chars.take(start)[k] == '_');
        } else {
            assert(chars.skip(stop)[k - stop] == '_');
        }
    }
}

/// A part of a name is the normal name, and something else only where that is empty.
pub proof fn parts_fall_back(value: Seq<char>, fallback: Seq<char>)
    ensures
        mcp::normal_id(value).len() > 0 ==> mcp::component_of(value, fallback) == mcp::normal_id(
            value,
        ),
        mcp::normal_id(value).len() == 0 ==> mcp::component_of(value, fallback) == fallback,
        mcp::normal_id(value) == mcp::normal_id(mcp::normal_id(value)),
{
    mcp::normal_ids_are_plain(value);
}

/// What is cut begins as it did and is no longer than allowed; what is short enough stays whole.
pub proof fn names_are_cut_behind(value: Seq<char>, max: nat)
    ensures
        mcp::cut(value, max).len() <= max,
        text::has_prefix(value, mcp::cut(value, max)),
        value.len() <= max ==> mcp::cut(value, max) == value,
        value.len() > max ==> mcp::cut(value, max).len() == max,
{
    assert(value.take(mcp::cut(value, max).len() as int) =~= mcp::cut(value, max));
}

/// The number that bytes stand for, the lowest first.
pub open spec fn number_of(bytes: Seq<u8>) -> nat
    decreases bytes.len(),
{
    if bytes.len() == 0 {
        0
    } else {
        bytes[0] as nat + 256 * number_of(bytes.skip(1))
    }
}

/// The bytes of a number are as many as asked for and stand for that number, where it fits.
pub proof fn bytes_are_read_back(n: nat, size: nat)
    ensures
        mcp::le_bytes(n, size).len() == size,
        n < vstd::arithmetic::power::pow(256, size) ==> number_of(mcp::le_bytes(n, size)) == n,
    decreases size,
{
    vstd::arithmetic::power::lemma_pow0(256);
    if size > 0 {
        let bytes = mcp::le_bytes(n, size);
        let rest = mcp::le_bytes(n / 256, (size - 1) as nat);
        bytes_are_read_back(n / 256, (size - 1) as nat);
        assert(bytes.skip(1) =~= rest);
        vstd::arithmetic::power::lemma_pow_adds(256, 1, (size - 1) as nat);
        vstd::arithmetic::power::lemma_pow1(256);
        assert(bytes[0] as nat == n % 256);
        if n < vstd::arithmetic::power::pow(256, size) {
            let below = vstd::arithmetic::power::pow(256, (size - 1) as nat);
            assert(n < 256 * below);
            assert(n / 256 < below);
            assert(n == 256 * (n / 256) + n % 256);
        }
    }
}

/// The number of a hexadecimal digit.
pub open spec fn digit_value(c: char) -> int {
    if '0' <= c <= '9' {
        c as int - '0' as int
    } else {
        c as int - 'a' as int + 10
    }
}

/// The number that hexadecimal digits stand for, the lowest last.
pub open spec fn hex_value(s: Seq<char>) -> int
    decreases s.len(),
{
    if s.len() == 0 {
        0
    } else {
        16 * hex_value(s.drop_last()) + digit_value(s.last())
    }
}

/// A number is written in as many digits as asked for, in lower case, and is read back from them,
/// where it fits.
pub proof fn digits_are_read_back(n: nat, size: nat)
    ensures
        mcp::hex_of(n, size).len() == size,
        n < vstd::arithmetic::power::pow(16, size) ==> hex_value(mcp::hex_of(n, size)) == n,
        forall|i: int|
            0 <= i < size ==> {
                let c = #[trigger] mcp::hex_of(n, size)[i];
                '0' <= c <= '9' || 'a' <= c <= 'f'
            },
    decreases size,
{
    vstd::arithmetic::power::lemma_pow0(16);
    if size > 0 {
        let digits = mcp::hex_of(n, size);
        let rest = mcp::hex_of(n / 16, (size - 1) as nat);
        digits_are_read_back(n / 16, (size - 1) as nat);
        assert(digits.drop_last() =~= rest);
        vstd::arithmetic::power::lemma_pow_adds(16, 1, (size - 1) as nat);
        vstd::arithmetic::power::lemma_pow1(16);
        assert(digit_value(digits.last()) == n % 16);
        if n < vstd::arithmetic::power::pow(16, size) {
            let below = vstd::arithmetic::power::pow(16, (size - 1) as nat);
            assert(n < 16 * below);
            assert(n / 16 < below);
            assert(n == 16 * (n / 16) + n % 16);
        }
    }
}

/// A byte goes into a hash before it is multiplied: a change of the low byte of the hash is a change
/// of the byte. A zero multiplies it and no more.
pub proof fn bytes_go_in_before_the_product(hash: u32, byte: u8, change: u8)
    ensures
        mcp::hash_step(hash ^ (change as u32), byte) == mcp::hash_step(hash, byte ^ change),
        mcp::hash_step(hash, 0) == hash.wrapping_mul(16_777_619),
{
    assert((hash ^ (change as u32)) ^ (byte as u32) == hash ^ ((byte ^ change) as u32))
        by (bit_vector);
    assert(hash ^ 0u32 == hash) by (bit_vector);
}

/// A hash goes on where it stood: the bytes of two parts are hashed one part after the other.
pub proof fn hashes_go_on(hash: u32, first: Seq<u8>, second: Seq<u8>)
    ensures
        mcp::hash_from(hash, first + second) == mcp::hash_from(
            mcp::hash_from(hash, first),
            second,
        ),
        mcp::hash_from(hash, Seq::empty()) == hash,
    decreases second.len(),
{
    let both = first + second;
    if second.len() == 0 {
        assert(both =~= first);
    } else {
        assert(both.drop_last() =~= first + second.drop_last());
        hashes_go_on(hash, first, second.drop_last());
    }
}

/// A name that is not the plain one begins with the servers' mark, the server cut to twenty-four
/// characters and the tool cut to what is left, and ends with the eight digits of its hash.
pub proof fn hashed_names_end_with_their_hash(
    server_id: Seq<char>,
    tool: Seq<char>,
    index: nat,
    attempt: nat,
)
    ensures
        ({
            let name = mcp::hashed_name(server_id, tool, index, attempt);
            let server = mcp::cut(mcp::component_of(server_id, "server"@), 24);
            let start = "mcp__"@ + server + "__"@;
            &&& text::has_prefix(name, start)
            &&& name.len() >= start.len() + 9
            &&& name.len() <= 64
            &&& hex_value(name.skip(name.len() - 8)) == mcp::tool_hash(
                server_id,
                tool,
                index,
                attempt,
            )
            &&& text::has_prefix(
                mcp::component_of(tool, "tool"@),
                name.subrange(start.len() as int, name.len() - 9),
            )
        }),
{
    reveal_strlit("mcp__");
    reveal_strlit("__");
    reveal_strlit("_");
    let name = mcp::hashed_name(server_id, tool, index, attempt);
    let server = mcp::cut(mcp::component_of(server_id, "server"@), 24);
    let start = "mcp__"@ + server + "__"@;
    let hash = mcp::tool_hash(server_id, tool, index, attempt) as nat;
    let part = mcp::cut(mcp::component_of(tool, "tool"@), (48 - server.len()) as nat);
    names_are_cut_behind(mcp::component_of(server_id, "server"@), 24);
    names_are_cut_behind(mcp::component_of(tool, "tool"@), (48 - server.len()) as nat);
    digits_are_read_back(hash, 8);
    assert(vstd::arithmetic::power::pow(16, 8) == 0x1_0000_0000) by {
        reveal(vstd::arithmetic::power::pow);
        reveal_with_fuel(vstd::arithmetic::power::pow, 9);
    }
    assert(name =~= start + part + "_"@ + mcp::hex_of(hash, 8));
    assert(name.take(start.len() as int) =~= start);
    assert(name.skip(name.len() - 8) =~= mcp::hex_of(hash, 8));
    assert(name.subrange(start.len() as int, name.len() - 9) =~= part);
}

/// A plain name is the servers' mark, the normal name of the server and that of the tool, with two
/// underscores between them.
pub proof fn plain_names_show_server_and_tool(server_id: Seq<char>, tool: Seq<char>)
    ensures
        ({
            let name = mcp::plain_name(server_id, tool);
            let start = "mcp__"@ + mcp::component_of(server_id, "server"@);
            &&& text::has_prefix(name, start)
            &&& name.skip(start.len() as int) == "__"@ + mcp::component_of(tool, "tool"@)
        }),
{
    let name = mcp::plain_name(server_id, tool);
    let start = "mcp__"@ + mcp::component_of(server_id, "server"@);
    assert(name.take(start.len() as int) =~= start);
    assert(name.skip(start.len() as int) =~= "__"@ + mcp::component_of(tool, "tool"@));
}

/// Of the servers with one normal name the last is set up, under that name and otherwise as it is
/// given; without one, none is.
pub proof fn the_last_server_counts(
    configs: Seq<McpServerConfigModel>,
    id: Seq<char>,
    at: int,
)
    requires
        -1 <= at < configs.len(),
        at >= 0 ==> mcp::normal_id(configs[at].id) == id,
        forall|k: int| at < k < configs.len() ==> mcp::normal_id((#[trigger] configs[k]).id) != id,
    ensures
        mcp_runtime::set_up(configs).contains_key(id) <==> at >= 0,
        at >= 0 ==> {
            let config = mcp_runtime::set_up(configs)[id];
            &&& config.id == id
            &&& config.display_name == configs[at].display_name
            &&& config.command == configs[at].command
            &&& config.args == configs[at].args
            &&& config.env == configs[at].env
            &&& config.working_directory == configs[at].working_directory
        },
    decreases configs.len(),
{
    if configs.len() > 0 && at < configs.len() - 1 {
        let before = configs.drop_last();
        assert(mcp::normal_id(configs[configs.len() - 1].id) != id);
        assert forall|k: int| at < k < before.len() implies mcp::normal_id(
            (#[trigger] before[k]).id,
        ) != id by {
            assert(before[k] == configs[k]);
        }
        the_last_server_counts(before, id, at);
    }
}

/// A resource is shown by its text, else by its address, and only without both as a whole.
pub proof fn resources_are_shown(
    text: Option<Seq<char>>,
    uri: Option<Seq<char>>,
    whole: Seq<char>,
)
    ensures
        ({
            let shown = mcp_runtime::resource_shown(text, uri, whole);
            &&& text is Some ==> Some(shown) == text
            &&& text is None && uri is Some ==> {
                &&& text::has_prefix(shown, "[resource: "@)
                &&& shown.len() == "[resource: "@.len() + uri->0.len() + 1
                &&& shown.skip("[resource: "@.len() as int) == uri->0.push(']')
            }
            &&& text is None && uri is None ==> shown == whole
        }),
{
    reveal_strlit("]");
    if uri is Some {
        let shown = mcp_runtime::resource_shown(None, uri, whole);
        assert(shown.take("[resource: "@.len() as int) =~= "[resource: "@);
        assert(shown.skip("[resource: "@.len() as int) =~= uri->0.push(']'));
    }
}

/// An item is shown by its kind: a text by its words, a resource and an image as such. What is of no
/// kind, or of another, and a text without words, is shown as a whole.
pub proof fn items_are_shown_by_kind(
    kind: Option<Seq<char>>,
    text: Option<Seq<char>>,
    resource: Seq<char>,
    image: Seq<char>,
    whole: Seq<char>,
)
    ensures
        ({
            let shown = mcp_runtime::item_shown(kind, text, resource, image, whole);
            &&& kind == Some("text"@) && text is Some ==> Some(shown) == text
            &&& kind == Some("text"@) && text is None ==> shown == whole
            &&& kind == Some("resource"@) ==> shown == resource
            &&& kind == Some("image"@) ==> text::has_prefix(shown, "[image: "@) && shown.skip(
                "[image: "@.len() as int,
            ) == image.push(']')
            &&& kind is None ==> shown == whole
            &&& kind != Some("text"@) && kind != Some("resource"@) && kind != Some("image"@)
                ==> shown == whole
        }),
{
    reveal_strlit("]");
    reveal_strlit("text");
    reveal_strlit("resource");
    reveal_strlit("image");
    assert("text"@.len() == 4 && "resource"@.len() == 8 && "image"@.len() == 5);
    let shown = "[image: "@ + image + "]"@;
    assert(shown.take("[image: "@.len() as int) =~= "[image: "@);
    assert(shown.skip("[image: "@.len() as int) =~= image.push(']'));
}

/// Items are shown in order, with an empty line between one and the next. One alone is shown as it
/// is, and without any something is said.
pub proof fn items_are_shown_in_order(content: Seq<Seq<char>>, next: Seq<char>)
    ensures
        mcp_runtime::content_text(seq![next]) == mcp_runtime::item_text(next),
        content.len() > 0 ==> mcp_runtime::content_text(content.push(next))
            == mcp_runtime::content_text(content) + "\n\n"@ + mcp_runtime::item_text(next),
        mcp_runtime::content_text(Seq::empty()).len() > 0,
{
    reveal_strlit("[MCP tool returned no content]");
    let one = seq![next];
    assert(mcp_runtime::item_texts(one) =~= seq![mcp_runtime::item_text(next)]);
    if content.len() > 0 {
        let all = content.push(next);
        let texts = mcp_runtime::item_texts(all);
        assert(texts.drop_last() =~= mcp_runtime::item_texts(content));
        assert(texts.last() == mcp_runtime::item_text(next));
    }
}

/// The hash of a tool goes over the server, the tool, its place and the attempt, in this order, with
/// a zero behind each but the last.
pub proof fn hashes_go_over_server_and_tool(
    server_id: Seq<char>,
    tool: Seq<char>,
    index: nat,
    attempt: nat,
)
    ensures
        ({
            let size = mcp::word_size();
            let after_server = mcp::hash_step(
                mcp::hash_from(2_166_136_261, vstd::utf8::encode_utf8(server_id)),
                0,
            );
            let after_tool = mcp::hash_step(
                mcp::hash_from(after_server, vstd::utf8::encode_utf8(tool)),
                0,
            );
            let after_place = mcp::hash_step(
                mcp::hash_from(after_tool, mcp::le_bytes(index, size)),
                0,
            );
            mcp::tool_hash(server_id, tool, index, attempt) == mcp::hash_from(
                after_place,
                mcp::le_bytes(attempt, size),
            )
        }),
{
    let size = mcp::word_size();
    let basis: u32 = 2_166_136_261;
    let zero = seq![0u8];
    let server = vstd::utf8::encode_utf8(server_id);
    let name = vstd::utf8::encode_utf8(tool);
    let place = mcp::le_bytes(index, size);
    let last = mcp::le_bytes(attempt, size);
    let one = server + zero;
    let two = one + name;
    let three = two + zero;
    let four = three + place;
    let five = four + zero;
    assert(one.drop_last() =~= server && one.last() == 0u8);
    assert(three.drop_last() =~= two && three.last() == 0u8);
    assert(five.drop_last() =~= four && five.last() == 0u8);
    hashes_go_on(basis, one, name);
    hashes_go_on(basis, three, place);
    hashes_go_on(basis, five, last);
    assert(mcp::hash_head(server_id, tool, index) =~= five);
}

} // verus!
