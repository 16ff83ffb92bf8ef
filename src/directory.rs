use vstd::prelude::*;

verus! {

/// Relies on String::push_str: appends `t` to `s`.
#[verifier::external_body]
pub(crate) fn push_str(s: &mut String, t: &str)
    ensures
        final(s)@ == old(s)@ + t@,
{
    s.push_str(t)
}

/// Relies on `str == str`: true exactly when the two texts are equal.
#[verifier::external_body]
pub(crate) fn str_eq(a: &str, b: &str) -> (r: bool)
    ensures
        r == (a@ == b@),
{
    a == b
}

/// One channel of a workspace's listing: its id and, when the platform gave
/// one, its normalized name.
#[derive(Clone, Debug)]
pub struct ChannelInfo {
    pub id: String,
    pub name: Option<String>,
}

/// The display name of a channel: `<workspace>-<channel>`.
pub open spec fn qualified(ws: Seq<char>, chan: Seq<char>) -> Seq<char> {
    ws + seq!['-'] + chan
}

/// The name that an unknown channel id resolves to.
pub open spec fn unknown_channel() -> Seq<char> {
    seq!['<', 'N', 'O', 'N', 'E', '>']
}

/// The map that a list of `(id, name)` entries stands for: a later entry
/// replaces an earlier one with the same id.
pub open spec fn map_of(s: Seq<(String, String)>) -> Map<Seq<char>, Seq<char>>
    decreases s.len(),
{
    if s.len() == 0 {
        Map::empty()
    } else {
        map_of(s.drop_last()).insert(s.last().0@, s.last().1@)
    }
}

/// The map `m` after the named channels of one workspace's listing are added
/// in order.
pub open spec fn add_listing(m: Map<Seq<char>, Seq<char>>, ws: Seq<char>, chans: Seq<ChannelInfo>) -> Map<
    Seq<char>,
    Seq<char>,
>
    decreases chans.len(),
{
    if chans.len() == 0 {
        m
    } else {
        let rest = add_listing(m, ws, chans.drop_last());
        let c = chans.last();
        match c.name {
            Some(n) => rest.insert(c.id@, qualified(ws, n@)),
            None => rest,
        }
    }
}

/// Maps channel ids to workspace-qualified display names.
#[derive(Clone, Debug)]
pub struct ChannelDirectory {
    entries: Vec<(String, String)>,
}

impl View for ChannelDirectory {
    type V = Map<Seq<char>, Seq<char>>;

    closed spec fn view(&self) -> Map<Seq<char>, Seq<char>> {
        map_of(self.entries@)
    }
}

impl ChannelDirectory {
    /// The display name of `id`, or the placeholder when it is unknown.
    pub open spec fn resolve(&self, id: Seq<char>) -> Seq<char> {
        if self@.contains_key(id) {
            self@[id]
        } else {
            unknown_channel()
        }
    }

    pub fn new() -> (r: ChannelDirectory)
        ensures
            r@ == Map::<Seq<char>, Seq<char>>::empty(),
    {
        ChannelDirectory { entries: Vec::new() }
    }

    /// Maps `id` to `name`, replacing what it mapped to before.
    pub fn insert(&mut self, id: String, name: String)
        ensures
            final(self)@ == old(self)@.insert(id@, name@),
    {
        let ghost before = self.entries@;
        self.entries.push((id, name));
        assert(self.entries@.drop_last() =~= before);
    }

    /// The name that `id` maps to, if any.
    pub fn get(&self, id: &str) -> (r: Option<&String>)
        ensures
            r is Some <==> self@.contains_key(id@),
            r is Some ==> r->0@ == self@[id@],
    {
        let mut i: usize = self.entries.len();
        assert(self.entries@.take(i as int) =~= self.entries@);
        while i > 0
            invariant
                i <= self.entries@.len(),
                self@.contains_key(id@) == map_of(self.entries@.take(i as int)).contains_key(id@),
                self@.contains_key(id@) ==> self@[id@] == map_of(self.entries@.take(i as int))[id@],
            decreases i,
        {
            let e = &self.entries[i - 1];
            assert(self.entries@.take(i as int).drop_last() =~= self.entries@.take(i - 1));
            if str_eq(e.0.as_str(), id) {
                return Some(&e.1);
            }
            i = i - 1;
        }
        None
    }

    /// Adds the named channels of one workspace's listing, each under
    /// `<ws>-<channel>`; channels without a name are left out.
    pub fn add_listing(&mut self, ws: &str, chans: &Vec<ChannelInfo>)
        ensures
            final(self)@ == add_listing(old(self)@, ws@, chans@),
    {
        let mut i: usize = 0;
        while i < chans.len()
            invariant
                i <= chans@.len(),
                self@ == add_listing(old(self)@, ws@, chans@.take(i as int)),
            decreases chans@.len() - i,
        {
            let c = &chans[i];
            assert(chans@.take(i + 1).drop_last() =~= chans@.take(i as int));
            match &c.name {
                Some(n) => {
                    let mut q = ws.to_owned();
                    push_str(&mut q, "-");
                    push_str(&mut q, n.as_str());
                    proof {
                        reveal_strlit("-");
                    }
                    assert(q@ =~= qualified(ws@, n@));
                    self.insert(c.id.clone(), q);
                },
                None => {},
            }
            i = i + 1;
        }
        assert(chans@.take(chans@.len() as int) =~= chans@);
    }
}

} // verus!
