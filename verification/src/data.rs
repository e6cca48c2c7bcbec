//! Where each piece of stored data lives, and who did what when.

use vstd::prelude::*;
use vstd::string::*;

use crate::text::{decimal, decimal_string, lemma_decimal_injective, views};

verus! {

/// Seconds since the Unix epoch, from the system clock; `None` when the clock
/// reads a time before the epoch.
///
/// Calls `SystemTime::elapsed` on `UNIX_EPOCH` and `Duration::as_secs`. What it
/// returns depends on the clock, so nothing is stated of it.
#[verifier::external_body]
pub(crate) fn unix_time_secs() -> (r: Option<u64>) {
    match std::time::UNIX_EPOCH.elapsed() {
        Ok(elapsed) => Some(elapsed.as_secs()),
        Err(_) => None,
    }
}

/// Who performed an action, and when (seconds since the Unix epoch).
#[derive(Clone, Copy, Debug, PartialEq, Eq, Structural)]
pub struct Attribution {
    pub user: u64,
    pub timestamp: u64,
}

impl Attribution {
    /// An attribution to `user` at `timestamp`.
    pub fn new(user: u64, timestamp: u64) -> (a: Attribution)
        ensures
            a.user == user,
            a.timestamp == timestamp,
    {
        Attribution { user, timestamp }
    }

    /// An attribution to `user` at the present moment of the system clock;
    /// `None` when the clock reads a time before the Unix epoch.
    pub fn now(user: u64) -> (a: Option<Attribution>)
        ensures
            a matches Some(a) ==> a.user == user,
    {
        match unix_time_secs() {
            Some(timestamp) => Some(Attribution::new(user, timestamp)),
            None => None,
        }
    }
}

/// A unit of organization (a server, a member of a server) under whose
/// directory its data is stored.
pub trait OrganizationalUnit {
    /// The unit's directory, as path components relative to the data directory.
    spec fn spec_dir(&self) -> Seq<Seq<char>>;

    /// The unit's directory, as path components relative to the data directory.
    fn dir(&self) -> (d: Vec<String>)
        ensures
            views(d@) == self.spec_dir(),
    ;
}

/// A server, by its id.
#[derive(Clone, Copy, Debug, PartialEq, Eq, Structural)]
pub struct GuildId(pub u64);

/// A member of a server: the server's id and the member's user id.
#[derive(Clone, Copy, Debug, PartialEq, Eq, Structural)]
pub struct Member {
    pub guild_id: u64,
    pub user_id: u64,
}

/// Directory of a server: `guilds/<server id>`.
pub open spec fn guild_dir(guild_id: u64) -> Seq<Seq<char>> {
    seq!["guilds"@, decimal(guild_id as nat)]
}

/// Directory of a member: `guilds/<server id>/members/<user id>`.
pub open spec fn member_dir(guild_id: u64, user_id: u64) -> Seq<Seq<char>> {
    guild_dir(guild_id) + seq!["members"@, decimal(user_id as nat)]
}

/// Distinct servers have distinct directories, so no two servers share data.
pub proof fn lemma_guild_dirs_distinct(a: u64, b: u64)
    requires
        a != b,
    ensures
        guild_dir(a) != guild_dir(b),
{
    if guild_dir(a) == guild_dir(b) {
        assert(guild_dir(a)[1] == guild_dir(b)[1]);
        lemma_decimal_injective(a as nat, b as nat);
    }
}

/// A member's directory lies inside the directory of their server, and
/// distinct members (of the same or different servers) have distinct
/// directories, so no two members share data.
pub proof fn lemma_member_dirs_distinct(guild_a: u64, user_a: u64, guild_b: u64, user_b: u64)
    ensures
        member_dir(guild_a, user_a).take(2) == guild_dir(guild_a),
        (guild_a != guild_b || user_a != user_b) ==> member_dir(guild_a, user_a) != member_dir(guild_b, user_b),
{
    assert(member_dir(guild_a, user_a).take(2) =~= guild_dir(guild_a));
    if (guild_a != guild_b || user_a != user_b) && member_dir(guild_a, user_a) == member_dir(guild_b, user_b) {
        assert(member_dir(guild_a, user_a)[1] == member_dir(guild_b, user_b)[1]);
        assert(member_dir(guild_a, user_a)[3] == member_dir(guild_b, user_b)[3]);
        lemma_decimal_injective(guild_a as nat, guild_b as nat);
        lemma_decimal_injective(user_a as nat, user_b as nat);
    }
}

impl OrganizationalUnit for GuildId {
    open spec fn spec_dir(&self) -> Seq<Seq<char>> {
        guild_dir(self.0)
    }

    fn dir(&self) -> (d: Vec<String>) {
        let mut d: Vec<String> = Vec::new();
        d.push(String::from_str("guilds"));
        d.push(decimal_string(self.0));
        assert(views(d@) =~= guild_dir(self.0));
        d
    }
}

impl OrganizationalUnit for Member {
    open spec fn spec_dir(&self) -> Seq<Seq<char>> {
        member_dir(self.guild_id, self.user_id)
    }

    fn dir(&self) -> (d: Vec<String>) {
        let mut d = GuildId(self.guild_id).dir();
        d.push(String::from_str("members"));
        d.push(decimal_string(self.user_id));
        assert(views(d@) =~= member_dir(self.guild_id, self.user_id));
        d
    }
}

/// Data stored per unit `U`, in a file of its own under the unit's directory.
pub trait Data<U: OrganizationalUnit>: Sized {
    /// Name of the file, under the unit's directory.
    spec fn spec_path() -> Seq<char>;

    /// What the data represents, for users.
    spec fn spec_descriptor() -> Seq<char>;

    /// Name of the file, under the unit's directory.
    fn path() -> (p: &'static str)
        ensures
            p@ == Self::spec_path(),
    ;

    /// What the data represents, for users; used in error messages.
    fn descriptor() -> (d: &'static str)
        ensures
            d@ == Self::spec_descriptor(),
    ;

    /// Location of the data of `unit`, as path components relative to the
    /// data directory.
    fn file_for(unit: &U) -> (f: Vec<String>)
        ensures
            views(f@) == unit.spec_dir().push(Self::spec_path()),
    {
        let mut f = unit.dir();
        let ghost before = f@;
        f.push(String::from_str(Self::path()));
        assert(views(f@) =~= views(before).push(Self::spec_path()));
        f
    }

    /// What is said when the data cannot be read: `could not get <descriptor>`.
    fn get_failure_context() -> (s: String)
        ensures
            s@ == "could not get "@ + Self::spec_descriptor(),
    {
        let mut s = String::from_str("could not get ");
        s.append(Self::descriptor());
        s
    }

    /// What is said when the data cannot be written: `could not set <descriptor>`.
    fn set_failure_context() -> (s: String)
        ensures
            s@ == "could not set "@ + Self::spec_descriptor(),
    {
        let mut s = String::from_str("could not set ");
        s.append(Self::descriptor());
        s
    }
}

} // verus!
