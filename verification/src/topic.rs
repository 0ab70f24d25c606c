//! The topic codec. A topic routes telemetry to one device of one owner and
//! is written `{owner}/{device}/{name}`: two identifiers and the device's
//! name, separated by slashes.

use vstd::prelude::*;
use vstd::string::*;
use crate::error_app::{AppError, AppErrorView};
use crate::ident::{format_uuid, is_uuid_segment, lemma_uuid_text_no_slash, parse_uuid, uuid_parse, uuid_text};

verus! {

/// What a topic decodes to.
#[derive(Debug)]
pub struct DecomposeTopic {
    pub user_uuid: u128,
    pub device_uuid: u128,
    pub device_name: String,
}

/// The mathematical content of a [`DecomposeTopic`].
pub struct DecomposeTopicView {
    pub user_uuid: u128,
    pub device_uuid: u128,
    pub device_name: Seq<char>,
}

impl View for DecomposeTopic {
    type V = DecomposeTopicView;

    open spec fn view(&self) -> DecomposeTopicView {
        DecomposeTopicView {
            user_uuid: self.user_uuid,
            device_uuid: self.device_uuid,
            device_name: self.device_name@,
        }
    }
}

/// The pieces of `s` between its slashes, in order. A text without a slash is
/// one segment; every slash starts a new one, which may be empty.
pub open spec fn segments(s: Seq<char>) -> Seq<Seq<char>>
    decreases s.len(),
{
    if s.len() == 0 {
        seq![Seq::<char>::empty()]
    } else {
        let before = segments(s.drop_last());
        if s.last() == '/' {
            before.push(Seq::<char>::empty())
        } else {
            before.update(before.len() - 1, before.last().push(s.last()))
        }
    }
}

/// Three segments written as one topic.
pub open spec fn join_topic(a: Seq<char>, b: Seq<char>, c: Seq<char>) -> Seq<char> {
    a + seq!['/'] + b + seq!['/'] + c
}

/// The topic of a device: the hyphenated texts of the owner and the device,
/// then the device's name.
pub open spec fn compose_topic(user_uuid: u128, device_uuid: u128, device_name: Seq<char>) -> Seq<
    char,
> {
    join_topic(uuid_text(user_uuid), uuid_text(device_uuid), device_name)
}

/// What the two identifier segments and the name of a three-segment topic
/// decode to, given what reading each identifier gave.
pub open spec fn decode_parts(
    user: Option<u128>,
    device: Option<u128>,
    device_name: Seq<char>,
) -> Result<DecomposeTopicView, AppErrorView> {
    match user {
        None => Err(AppErrorView::BadRequest("Invalid user_uuid"@)),
        Some(user_uuid) => match device {
            None => Err(AppErrorView::BadRequest("Invalid device_uuid"@)),
            Some(device_uuid) => Ok(DecomposeTopicView { user_uuid, device_uuid, device_name }),
        },
    }
}

/// What a topic decodes to: a topic that does not have exactly three segments
/// is invalid as a whole, and so is one whose first or second segment is not
/// an identifier.
pub open spec fn decode_topic(topic: Seq<char>) -> Result<DecomposeTopicView, AppErrorView> {
    let parts = segments(topic);
    if parts.len() != 3 {
        Err(AppErrorView::BadRequest("Invalid topic"@))
    } else {
        decode_parts(uuid_parse(parts[0]), uuid_parse(parts[1]), parts[2])
    }
}

/// Whether an executable decoding result is the mathematical one.
pub open spec fn is_decoding(
    got: Result<DecomposeTopic, AppError>,
    expected: Result<DecomposeTopicView, AppErrorView>,
) -> bool {
    match got {
        Ok(t) => expected == Ok::<DecomposeTopicView, AppErrorView>(t@),
        Err(e) => expected == Err::<DecomposeTopicView, AppErrorView>(e@),
    }
}

/// Every text has at least one segment.
pub proof fn lemma_segments_nonempty(s: Seq<char>)
    ensures
        segments(s).len() >= 1,
    decreases s.len(),
{
    if s.len() > 0 {
        lemma_segments_nonempty(s.drop_last());
    }
}

/// A text without a slash is its own single segment.
pub proof fn lemma_segments_of_plain(s: Seq<char>)
    requires
        !s.contains('/'),
    ensures
        segments(s) == seq![s],
    decreases s.len(),
{
    if s.len() == 0 {
        assert(s =~= Seq::<char>::empty());
    } else {
        let front = s.drop_last();
        assert forall|i: int| 0 <= i < front.len() implies front[i] != '/' by {
            assert(front[i] == s[i]);
            assert(s.contains(s[i]));
        }
        lemma_segments_of_plain(front);
        assert(s.contains(s.last()));
        assert(front.push(s.last()) =~= s);
        assert(segments(s) =~= seq![s]);
    }
}

/// Appending a slash and a text without slashes appends that text as one
/// more segment.
pub proof fn lemma_segments_append(s: Seq<char>, x: Seq<char>)
    requires
        !x.contains('/'),
    ensures
        segments(s + seq!['/'] + x) == segments(s).push(x),
    decreases x.len(),
{
    let whole = s + seq!['/'] + x;
    if x.len() == 0 {
        assert(whole.drop_last() =~= s);
        assert(whole.last() == '/');
        assert(x =~= Seq::<char>::empty());
    } else {
        let front = x.drop_last();
        assert forall|i: int| 0 <= i < front.len() implies front[i] != '/' by {
            assert(front[i] == x[i]);
            assert(x.contains(x[i]));
        }
        lemma_segments_append(s, front);
        assert(whole.drop_last() =~= s + seq!['/'] + front);
        assert(whole.last() == x.last());
        assert(x.contains(x.last()));
        assert(front.push(x.last()) =~= x);
        assert(segments(whole) =~= segments(s).push(x));
    }
}

/// Three texts without slashes, joined, split into exactly those three.
pub proof fn lemma_segments_of_join(a: Seq<char>, b: Seq<char>, c: Seq<char>)
    requires
        !a.contains('/'),
        !b.contains('/'),
        !c.contains('/'),
    ensures
        segments(join_topic(a, b, c)) == seq![a, b, c],
{
    lemma_segments_of_plain(a);
    lemma_segments_append(a, b);
    lemma_segments_append(a + seq!['/'] + b, c);
    assert(segments(join_topic(a, b, c)) =~= seq![a, b, c]);
}

/// Decoding inverts composing: a topic made of a spelling of the owner's
/// identifier, a spelling of the device's identifier and a name without
/// slashes decodes to that owner, that device and that name.
pub proof fn lemma_decode_inverts_join(
    user_text: Seq<char>,
    user_uuid: u128,
    device_text: Seq<char>,
    device_uuid: u128,
    device_name: Seq<char>,
)
    requires
        is_uuid_segment(user_text, user_uuid),
        is_uuid_segment(device_text, device_uuid),
        !device_name.contains('/'),
    ensures
        decode_topic(join_topic(user_text, device_text, device_name)) == Ok::<
            DecomposeTopicView,
            AppErrorView,
        >(DecomposeTopicView { user_uuid, device_uuid, device_name }),
{
    lemma_segments_of_join(user_text, device_text, device_name);
}

/// The topic of a device.
///
/// Decoding the result gives the three arguments back whenever the name holds
/// no slash.
pub fn device_compose_topic(user_uuid: u128, device_uuid: u128, device_name: &str) -> (topic:
    String)
    ensures
        topic@ == compose_topic(user_uuid, device_uuid, device_name@),
        !device_name@.contains('/') ==> decode_topic(topic@) == Ok::<
            DecomposeTopicView,
            AppErrorView,
        >(DecomposeTopicView { user_uuid, device_uuid, device_name: device_name@ }),
{
    let user_text = format_uuid(user_uuid);
    let device_text = format_uuid(device_uuid);
    proof {
        reveal_strlit("/");
        assert("/"@ =~= seq!['/']);
        lemma_uuid_text_no_slash(user_uuid);
        lemma_uuid_text_no_slash(device_uuid);
        if !device_name@.contains('/') {
            lemma_decode_inverts_join(
                user_text@,
                user_uuid,
                device_text@,
                device_uuid,
                device_name@,
            );
        }
    }
    user_text.concat("/").concat(device_text.as_str()).concat("/").concat(device_name)
}

/// Splits a topic into its three segments, or finds that it does not have
/// exactly three.
pub fn split_topic(topic: &str) -> (parts: Option<(String, String, String)>)
    ensures
        match parts {
            Some((a, b, c)) => segments(topic@) == seq![a@, b@, c@],
            None => segments(topic@).len() != 3,
        },
{
    let n = topic.unicode_len();
    let mut slashes: u8 = 0;
    let mut first: usize = 0;
    let mut second: usize = 0;
    let mut i: usize = 0;
    let ghost s = topic@;
    proof {
        assert(s.take(0) =~= Seq::<char>::empty());
    }
    for c in it: topic.chars()
        invariant
            s == topic@,
            it.seq() == s,
            n == s.len(),
            i == it.index(),
            i <= n,
            slashes <= 3,
            slashes == 0 ==> segments(s.take(i as int)) == seq![s.take(i as int)],
            slashes == 1 ==> first < i && segments(s.take(i as int)) == seq![
                s.take(first as int),
                s.subrange(first + 1, i as int),
            ],
            slashes == 2 ==> first < second < i && segments(s.take(i as int)) == seq![
                s.take(first as int),
                s.subrange(first + 1, second as int),
                s.subrange(second + 1, i as int),
            ],
            slashes == 3 ==> segments(s.take(i as int)).len() > 3,
    {
        proof {
            let before = s.take(i as int);
            let now = s.take(i + 1);
            assert(now.drop_last() =~= before);
            assert(now.last() == c);
            if c == '/' {
                assert(s.subrange(i + 1, i + 1) =~= Seq::<char>::empty());
                if slashes == 0 {
                    assert(segments(now) =~= seq![s.take(i as int), s.subrange(i + 1, i + 1)]);
                } else if slashes == 1 {
                    assert(segments(now) =~= seq![
                        s.take(first as int),
                        s.subrange(first + 1, i as int),
                        s.subrange(i + 1, i + 1),
                    ]);
                }
            } else {
                if slashes == 0 {
                    assert(before.push(c) =~= now);
                    assert(segments(now) =~= seq![now]);
                } else if slashes == 1 {
                    assert(s.subrange(first + 1, i as int).push(c) =~= s.subrange(
                        first + 1,
                        i + 1,
                    ));
                    assert(segments(now) =~= seq![
                        s.take(first as int),
                        s.subrange(first + 1, i + 1),
                    ]);
                } else if slashes == 2 {
                    assert(s.subrange(second + 1, i as int).push(c) =~= s.subrange(
                        second + 1,
                        i + 1,
                    ));
                    assert(segments(now) =~= seq![
                        s.take(first as int),
                        s.subrange(first + 1, second as int),
                        s.subrange(second + 1, i + 1),
                    ]);
                }
            }
        }
        if c == '/' {
            if slashes == 0 {
                first = i;
            } else if slashes == 1 {
                second = i;
            }
            if slashes < 3 {
                slashes = slashes + 1;
            }
        }
        i = i + 1;
    }
    proof {
        assert(s.take(n as int) =~= s);
    }
    if slashes == 2 {
        let a = topic.substring_char(0, first).to_owned();
        let b = topic.substring_char(first + 1, second).to_owned();
        let c = topic.substring_char(second + 1, n).to_owned();
        proof {
            assert(s.take(first as int) =~= s.subrange(0, first as int));
        }
        Some((a, b, c))
    } else {
        None
    }
}

/// The decoding of a three-segment topic, from what reading its two
/// identifier segments gave and from its name.
pub fn decoded_topic(user: Option<u128>, device: Option<u128>, device_name: String) -> (r: Result<
    DecomposeTopic,
    AppError,
>)
    ensures
        is_decoding(r, decode_parts(user, device, device_name@)),
{
    match user {
        None => Err(AppError::bad_request("Invalid user_uuid")),
        Some(user_uuid) => match device {
            None => Err(AppError::bad_request("Invalid device_uuid")),
            Some(device_uuid) => Ok(DecomposeTopic { user_uuid, device_uuid, device_name }),
        },
    }
}

/// Decodes a topic into owner, device and device name.
///
/// Fails as a whole, never in part: with "Invalid topic" unless the topic has
/// exactly three segments, with "Invalid user_uuid" or "Invalid device_uuid"
/// when the first or the second segment is not an identifier.
pub fn device_decompose_topic(topic: &str) -> (r: Result<DecomposeTopic, AppError>)
    ensures
        is_decoding(r, decode_topic(topic@)),
        segments(topic@).len() != 3 ==> r is Err,
{
    match split_topic(topic) {
        None => Err(AppError::bad_request("Invalid topic")),
        Some((user_text, device_text, device_name)) => {
            let user = parse_uuid(user_text.as_str());
            let device = parse_uuid(device_text.as_str());
            decoded_topic(user, device, device_name)
        },
    }
}

} // verus!
