//! Channel references and the two texts derived from them.

use crate::error::BuildError;
use crate::text::{padded2, parse_u32, parsed_u32, push_padded2, push_underscored, underscored};
use vstd::prelude::*;

verus! {

/// What a button shows for the channel `token`: the variable that holds the
/// channel's fader level. A token that reads as a number names a numbered
/// channel; any other token is a path, whose slashes become underscores.
pub open spec fn view_text(token: Seq<char>) -> Seq<char> {
    match parsed_u32(token) {
        Some(n) => ("$(x32:fader_ch_"@ + padded2(n as nat)).push(')'),
        None => ("$(x32:fader"@ + underscored(token)).push(')'),
    }
}

/// How the mixer addresses the channel `token`: a numbered channel under
/// `/ch/`, any other token as it stands.
pub open spec fn target_text(token: Seq<char>) -> Seq<char> {
    match parsed_u32(token) {
        Some(n) => "/ch/"@ + padded2(n as nat),
        None => token,
    }
}

/// A token that reads as the number `n` is shown as the fader variable of
/// channel `n` and addressed under `/ch/`, both times with the number at
/// least two digits wide.
pub proof fn lemma_numbered_channel(token: Seq<char>, n: u32)
    requires
        parsed_u32(token) == Some(n),
    ensures
        view_text(token) == "$(x32:fader_ch_"@ + padded2(n as nat) + ")"@,
        target_text(token) == "/ch/"@ + padded2(n as nat),
{
    reveal_strlit(")");
    assert(")"@ =~= seq![')']);
    assert(view_text(token) =~= "$(x32:fader_ch_"@ + padded2(n as nat) + ")"@);
}

/// A token that does not read as a number is taken as a path: it is shown
/// with an underscore in the place of every slash and with every other
/// character as it is, and it is addressed as it stands.
pub proof fn lemma_path_channel(token: Seq<char>)
    requires
        parsed_u32(token) is None,
    ensures
        view_text(token) == "$(x32:fader"@ + underscored(token) + ")"@,
        underscored(token).len() == token.len(),
        forall|i: int|
            0 <= i < token.len() ==> #[trigger] underscored(token)[i] == (if token[i] == '/' {
                '_'
            } else {
                token[i]
            }),
        target_text(token) == token,
{
    reveal_strlit(")");
    assert(")"@ =~= seq![')']);
    assert(view_text(token) =~= "$(x32:fader"@ + underscored(token) + ")"@);
}

/// A channel as the input names it: a number or a path on the mixer.
pub struct ChannelPath<'a> {
    pub channel_str: &'a str,
}

impl<'a> View for ChannelPath<'a> {
    type V = Seq<char>;

    open spec fn view(&self) -> Seq<char> {
        self.channel_str@
    }
}

impl<'a> ChannelPath<'a> {
    pub fn new(c: &'a str) -> (r: Self)
        ensures
            r@ == c@,
    {
        Self { channel_str: c }
    }

    /// The text that shows the channel's fader level on a button.
    pub fn view_string(&self) -> (r: Result<String, BuildError>)
        ensures
            r is Ok,
            r->Ok_0@ == view_text(self@),
    {
        match parse_u32(self.channel_str) {
            Some(channel) => {
                let mut out = "$(x32:fader_ch_".to_string();
                push_padded2(&mut out, channel);
                out.push(')');
                Ok(out)
            },
            None => {
                let mut out = "$(x32:fader".to_string();
                push_underscored(&mut out, self.channel_str);
                out.push(')');
                Ok(out)
            },
        }
    }

    /// The address under which the mixer knows the channel.
    pub fn set_string(&self) -> (r: String)
        ensures
            r@ == target_text(self@),
    {
        match parse_u32(self.channel_str) {
            Some(channel) => {
                let mut out = "/ch/".to_string();
                push_padded2(&mut out, channel);
                out
            },
            None => self.channel_str.to_string(),
        }
    }
}

} // verus!
