//! What holds of every command line, proved from the definitions.

use vstd::prelude::*;
use vstd::utf8::encode_utf8;
use crate::cli::{
    accept, accept_encoding, assembled, blank, connection, content_length, content_type, decoded,
    default_headers, folded, lemma_default_keys_differ, request_of, sends_json, takes_value,
    user_agent, CommandView,
};
use crate::decimal::decimal_text;
use crate::error::ErrorView;
use crate::header_map::{has_key, keys_distinct};
use crate::http_header;
use crate::request::{wire_text, EntryView, SocketAddr};

verus! {

/// The four fixed default headers stand in the default set with their
/// literal values, whatever the method and the body.
pub proof fn lemma_fixed_defaults(method: Option<Seq<char>>, data: Option<Seq<char>>)
    ensures
        default_headers(method, data).len() >= 4,
        default_headers(method, data)[0] == accept(),
        default_headers(method, data)[1] == accept_encoding(),
        default_headers(method, data)[2] == connection(),
        default_headers(method, data)[3] == user_agent(),
{
}

/// No key occurs twice among the default headers.
pub proof fn lemma_default_keys_distinct(method: Option<Seq<char>>, data: Option<Seq<char>>)
    ensures
        keys_distinct(default_headers(method, data)),
{
    lemma_default_keys_differ();
}

/// The default `Content-Type` is there for `POST` and `PUT` and for no other
/// method, nor where no method was given.
pub proof fn lemma_content_type_only_for_post_and_put(
    method: Option<Seq<char>>,
    data: Option<Seq<char>>,
)
    ensures
        has_key(default_headers(method, data), http_header::CONTENT_TYPE@) <==> (method == Some(
            "POST"@,
        ) || method == Some("PUT"@)),
        sends_json(method) ==> default_headers(method, data)[4] == content_type(),
{
    lemma_default_keys_differ();
    let defaults = default_headers(method, data);
    if sends_json(method) {
        assert(defaults[4] == content_type());
    }
}

/// `Content-Length` is there exactly where there is a body, and its value is
/// the decimal number of the bytes that the body takes in UTF-8.
pub proof fn lemma_content_length_counts_bytes(
    method: Option<Seq<char>>,
    data: Option<Seq<char>>,
)
    ensures
        has_key(default_headers(method, data), http_header::CONTENT_LENGTH@) <==> data is Some,
        forall|i: int|
            0 <= i < default_headers(method, data).len() && (#[trigger] default_headers(
                method,
                data,
            )[i]).key == http_header::CONTENT_LENGTH@ ==> data is Some && default_headers(
                method,
                data,
            )[i].value == decimal_text(encode_utf8(data->0).len()),
{
    lemma_default_keys_differ();
    let defaults = default_headers(method, data);
    if let Some(body) = data {
        assert(defaults.last() == content_length(body));
    }
}

/// Every command list that assembles carries the default headers behind the
/// headers that its commands gave. So a default header whose key no header
/// of the command line has is the one header under that key, with its
/// literal value.
pub proof fn lemma_defaults_present(commands: Seq<CommandView>, default: EntryView)
    requires
        assembled(commands) is Ok,
        default_headers(
            folded(blank(), commands)->Ok_0.method,
            folded(blank(), commands)->Ok_0.data,
        ).contains(default),
    ensures
        ({
            let given = folded(blank(), commands)->Ok_0.headers;
            let headers = assembled(commands)->Ok_0.headers;
            &&& headers.contains(default)
            &&& !has_key(given, default.key) ==> forall|i: int|
                0 <= i < headers.len() && (#[trigger] headers[i]).key == default.key
                    ==> headers[i] == default
        }),
{
    let given = folded(blank(), commands)->Ok_0;
    let defaults = default_headers(given.method, given.data);
    let headers = assembled(commands)->Ok_0.headers;
    assert(headers == given.headers + defaults);
    let at = choose|i: int| 0 <= i < defaults.len() && defaults[i] == default;
    assert(headers[given.headers.len() + at] == default);
    lemma_default_keys_distinct(given.method, given.data);
    if !has_key(given.headers, default.key) {
        assert forall|i: int|
            0 <= i < headers.len() && (#[trigger] headers[i]).key == default.key implies headers[i]
            == default by {
            if i < given.headers.len() {
                assert(given.headers[i].key == default.key);
            } else {
                let j = i - given.headers.len();
                assert(headers[i] == defaults[j]);
                if j != at {
                    assert(defaults[j].key != defaults[at].key);
                }
            }
        }
    }
}

/// A flag that takes a value and stands last, where a flag is expected, makes
/// the whole argument list fail.
pub proof fn lemma_flag_without_value_fails(args: Seq<Seq<char>>)
    requires
        args.len() > 0,
        takes_value(args.last()),
        decoded(args.drop_last()) is Ok,
    ensures
        decoded(args) == Err::<Seq<CommandView>, ErrorView>(
            ErrorView::MissingArgument(args.last()),
        ),
    decreases args.len(),
{
    let front = args.drop_last();
    if args.len() == 1 {
    } else if takes_value(args[0]) {
        assert(front[0] == args[0]);
        if front.len() == 1 {
            assert(decoded(front) is Err);
        } else {
            assert(front.skip(2) =~= args.skip(2).drop_last());
            lemma_flag_without_value_fails(args.skip(2));
        }
    } else {
        assert(front[0] == args[0]);
        assert(front.skip(1) =~= args.skip(1).drop_last());
        lemma_flag_without_value_fails(args.skip(1));
    }
}

/// The text that an argument list puts on the wire, or why there is none.
pub open spec fn message_of(args: Seq<Seq<char>>, socket_addrs: Seq<SocketAddr>) -> Result<
    Seq<char>,
    ErrorView,
> {
    match decoded(args) {
        Err(error) => Err(error),
        Ok(commands) => match assembled(commands) {
            Err(error) => Err(error),
            Ok(cli) => match request_of(cli, socket_addrs) {
                Err(error) => Err(error),
                Ok(request) => Ok(wire_text(request)),
            },
        },
    }
}

/// The text on the wire is settled by the arguments: it is the same
/// whatever addresses the host resolved to.
pub proof fn lemma_message_settled_by_arguments(
    args: Seq<Seq<char>>,
    first: Seq<SocketAddr>,
    second: Seq<SocketAddr>,
)
    ensures
        message_of(args, first) == message_of(args, second),
{
}

} // verus!
