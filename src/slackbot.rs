use vstd::prelude::*;

use crate::directory::{add_listing, unknown_channel, ChannelDirectory, ChannelInfo};
use crate::pattern::{captures, compile, group1_captures, pattern_compiles, UrlPattern};

verus! {

/// One chat workspace as configured: its display name and its two tokens.
#[derive(Clone, Debug)]
pub struct SlackWorkspace {
    pub name: String,
    pub api_token: String,
    pub socket_token: String,
}

/// A message event as the consumer sees it: the channel it came from and its
/// text, either of which the platform may leave out.
#[derive(Clone, Debug)]
pub struct MessageEvent {
    pub channel: Option<String>,
    pub text: Option<String>,
}

/// One URL found in a message, with the display name of its channel.
#[derive(Clone, Debug)]
pub struct UrlHit {
    pub chan: String,
    pub url: String,
}

impl View for UrlHit {
    type V = (Seq<char>, Seq<char>);

    open spec fn view(&self) -> (Seq<char>, Seq<char>) {
        (self.chan@, self.url@)
    }
}

impl UrlHit {
    /// A copy of this hit.
    pub fn clone_hit(&self) -> (r: UrlHit)
        ensures
            r@ == self@,
    {
        UrlHit { chan: self.chan.clone(), url: self.url.clone() }
    }
}

/// Why the registry could not be built.
#[derive(Clone, Copy, Debug, PartialEq, Eq, Structural)]
pub enum BotError {
    /// The URL-detection pattern does not compile.
    BadPattern,
    /// The number of channel listings differs from the number of workspaces.
    ListingMismatch,
}

/// The channel directory after the listings of the first `n` workspaces are
/// added in order.
pub open spec fn directory_of(ws: Seq<SlackWorkspace>, ls: Seq<Vec<ChannelInfo>>, n: nat) -> Map<
    Seq<char>,
    Seq<char>,
>
    decreases n,
{
    if n == 0 {
        Map::empty()
    } else {
        add_listing(directory_of(ws, ls, (n - 1) as nat), ws[n - 1].name@, ls[n - 1]@)
    }
}

/// The hits of one message on channel `chan`, from its group-1 captures:
/// one per capture that took part, in order.
pub open spec fn hits_of(chan: Seq<char>, caps: Seq<Option<Seq<char>>>) -> Seq<(Seq<char>, Seq<char>)>
    decreases caps.len(),
{
    if caps.len() == 0 {
        Seq::empty()
    } else {
        let r = hits_of(chan, caps.drop_last());
        match caps.last() {
            Some(u) => r.push((chan, u)),
            None => r,
        }
    }
}

/// The registry: workspaces, the compiled URL pattern, the log-store target and
/// the channel directory of all workspaces. It is built once and then only read.
pub struct Bot {
    url_log_db: String,
    workspaces: Vec<SlackWorkspace>,
    url_re: UrlPattern,
    channels: ChannelDirectory,
}

impl Bot {
    /// The channel directory.
    pub closed spec fn directory(&self) -> Map<Seq<char>, Seq<char>> {
        self.channels@
    }

    /// The text of the URL-detection pattern.
    pub closed spec fn pattern_text(&self) -> Seq<char> {
        self.url_re.source_spec()
    }

    pub closed spec fn log_target(&self) -> Seq<char> {
        self.url_log_db@
    }

    pub closed spec fn workspace_list(&self) -> Seq<SlackWorkspace> {
        self.workspaces@
    }

    /// The display name that channel `id` resolves to.
    pub open spec fn resolve(&self, id: Seq<char>) -> Seq<char> {
        if self.directory().contains_key(id) {
            self.directory()[id]
        } else {
            unknown_channel()
        }
    }

    /// The URLs that `msg` yields, each with its channel's display name; none
    /// when the event has no channel or no text.
    pub open spec fn msg_hits(&self, msg: MessageEvent) -> Seq<(Seq<char>, Seq<char>)> {
        match (msg.channel, msg.text) {
            (Some(c), Some(t)) => hits_of(self.resolve(c@), group1_captures(self.pattern_text(), t@)),
            _ => Seq::empty(),
        }
    }

    /// Builds the registry from the configuration and, for each workspace in
    /// the same order, its channel listing.
    pub fn new(
        url_regex: String,
        url_log_db: String,
        workspaces: Vec<SlackWorkspace>,
        listings: Vec<Vec<ChannelInfo>>,
    ) -> (r: Result<Bot, BotError>)
        ensures
            r == Err::<Bot, BotError>(BotError::BadPattern) <==> !pattern_compiles(url_regex@),
            r == Err::<Bot, BotError>(BotError::ListingMismatch) <==> (pattern_compiles(url_regex@)
                && listings@.len() != workspaces@.len()),
            r is Ok <==> (pattern_compiles(url_regex@) && listings@.len() == workspaces@.len()),
            r is Ok ==> ({
                let b = r->Ok_0;
                &&& b.pattern_text() == url_regex@
                &&& b.log_target() == url_log_db@
                &&& b.workspace_list() == workspaces@
                &&& b.directory() == directory_of(workspaces@, listings@, workspaces@.len())
            }),
    {
        let url_re = match compile(url_regex.as_str()) {
            Some(p) => p,
            None => {
                return Err(BotError::BadPattern);
            },
        };
        if listings.len() != workspaces.len() {
            return Err(BotError::ListingMismatch);
        }
        let mut channels = ChannelDirectory::new();
        let mut i: usize = 0;
        while i < workspaces.len()
            invariant
                i <= workspaces@.len(),
                listings@.len() == workspaces@.len(),
                channels@ == directory_of(workspaces@, listings@, i as nat),
            decreases workspaces@.len() - i,
        {
            channels.add_listing(workspaces[i].name.as_str(), &listings[i]);
            i = i + 1;
        }
        Ok(Bot { url_log_db, workspaces, url_re, channels })
    }

    /// The configured text of the URL-detection pattern.
    pub fn url_regex(&self) -> (r: &str)
        ensures
            r@ == self.pattern_text(),
    {
        self.url_re.source()
    }

    /// Where URL records are to be stored.
    pub fn url_log_db(&self) -> (r: &str)
        ensures
            r@ == self.log_target(),
    {
        self.url_log_db.as_str()
    }

    /// The configured workspaces, in order.
    pub fn workspaces(&self) -> (r: &Vec<SlackWorkspace>)
        ensures
            r@ == self.workspace_list(),
    {
        &self.workspaces
    }

    /// The URLs in `msg`, in the order of its text, each with the display name
    /// of the channel it was posted in.
    pub fn handle_msg(&self, msg: &MessageEvent) -> (r: Vec<UrlHit>)
        ensures
            r@.len() == self.msg_hits(*msg).len(),
            forall|i: int| 0 <= i < r@.len() ==> r@[i]@ == self.msg_hits(*msg)[i],
    {
        let mut out: Vec<UrlHit> = Vec::new();
        match (&msg.channel, &msg.text) {
            (Some(c), Some(t)) => {
                let chan = channel_name(self, c.as_str());
                let caps = captures(&self.url_re, t.as_str());
                let ghost g = group1_captures(self.pattern_text(), t@);
                let mut i: usize = 0;
                while i < caps.len()
                    invariant
                        i <= caps@.len(),
                        caps@.len() == g.len(),
                        forall|j: int| 0 <= j < caps@.len() ==> (caps@[j] is Some <==> g[j] is Some),
                        forall|j: int|
                            0 <= j < caps@.len() && caps@[j] is Some ==> caps@[j]->0@ == g[j]->0,
                        out@.len() == hits_of(chan@, g.take(i as int)).len(),
                        forall|j: int|
                            0 <= j < out@.len() ==> out@[j]@ == hits_of(chan@, g.take(i as int))[j],
                    decreases caps@.len() - i,
                {
                    assert(g.take(i + 1).drop_last() =~= g.take(i as int));
                    match &caps[i] {
                        Some(u) => {
                            out.push(UrlHit { chan: chan.to_owned(), url: u.clone() });
                        },
                        None => {},
                    }
                    i = i + 1;
                }
                assert(g.take(caps@.len() as int) =~= g);
            },
            _ => {},
        }
        out
    }
}

/// The display name of channel `id`, or `<NONE>` when the directory lacks it.
pub fn channel_name<'a>(bot: &'a Bot, id: &'a str) -> (r: &'a str)
    ensures
        r@ == bot.resolve(id@),
{
    match bot.channels.get(id) {
        Some(s) => s.as_str(),
        None => {
            proof {
                reveal_strlit("<NONE>");
            }
            let r = "<NONE>";
            assert(r@ =~= unknown_channel());
            r
        },
    }
}

} // verus!
