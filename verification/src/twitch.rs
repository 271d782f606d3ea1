//! The Twitch Helix channel search: the request it sends and how the reply
//! is read.

use vstd::prelude::*;

verus! {

/// One channel of the search reply.
pub struct TwitchUser {
    pub id: String,
    pub broadcaster_login: String,
    pub is_live: bool,
}

impl TwitchUser {
    /// The channel as (id, login, live).
    pub open spec fn view_tuple(&self) -> (Seq<char>, Seq<char>, bool) {
        (self.id@, self.broadcaster_login@, self.is_live)
    }
}

/// The channels of a reply as (id, login, live) triples.
pub open spec fn users_view(users: Seq<TwitchUser>) -> Seq<(Seq<char>, Seq<char>, bool)> {
    users.map_values(|u: TwitchUser| u.view_tuple())
}

/// The id and live state of the last channel in `users` whose login is
/// `channel`; `("0", false)` where there is none.
pub open spec fn channel_lookup(users: Seq<(Seq<char>, Seq<char>, bool)>, channel: Seq<char>) -> (
    Seq<char>,
    bool,
)
    decreases users.len(),
{
    if users.len() == 0 {
        (seq!['0'], false)
    } else if users.last().1 == channel {
        (users.last().0, users.last().2)
    } else {
        channel_lookup(users.drop_last(), channel)
    }
}

/// The lookup answers with an entry whose login is exactly the channel, the
/// last such entry, or `("0", false)` when no login equals the channel.
pub proof fn lemma_channel_lookup(users: Seq<(Seq<char>, Seq<char>, bool)>, channel: Seq<char>)
    ensures
        (forall|j: int| 0 <= j < users.len() ==> #[trigger] users[j].1 != channel) ==> channel_lookup(
            users,
            channel,
        ) == (seq!['0'], false),
        (exists|j: int| 0 <= j < users.len() && #[trigger] users[j].1 == channel) ==> exists|i: int|
            0 <= i < users.len() && #[trigger] users[i].1 == channel && channel_lookup(users, channel)
                == (users[i].0, users[i].2) && forall|j: int|
                i < j < users.len() ==> #[trigger] users[j].1 != channel,
    decreases users.len(),
{
    if users.len() > 0 {
        let rest = users.drop_last();
        lemma_channel_lookup(rest, channel);
        let n = users.len() - 1;
        if users[n].1 == channel {
            assert(users[n].1 == channel);
        } else {
            assert forall|j: int| 0 <= j < rest.len() implies rest[j] == users[j] by {}
            if exists|j: int| 0 <= j < users.len() && #[trigger] users[j].1 == channel {
                let j = choose|j: int| 0 <= j < users.len() && #[trigger] users[j].1 == channel;
                assert(rest[j].1 == channel);
                let i = choose|i: int|
                    0 <= i < rest.len() && #[trigger] rest[i].1 == channel && channel_lookup(
                        rest,
                        channel,
                    ) == (rest[i].0, rest[i].2) && forall|k: int|
                        i < k < rest.len() ==> #[trigger] rest[k].1 != channel;
                assert(users[i].1 == channel);
                assert forall|k: int| i < k < users.len() implies #[trigger] users[k].1 != channel by {
                    if k < rest.len() {
                        assert(rest[k].1 != channel);
                    }
                }
            } else {
                assert forall|j: int| 0 <= j < rest.len() implies #[trigger] rest[j].1 != channel by {
                    assert(users[j].1 != channel);
                }
            }
        }
    }
}

/// An HTTP GET request: address, query pairs and header pairs.
pub struct ApiRequest {
    pub url: String,
    pub query: Vec<(String, String)>,
    pub headers: Vec<(String, String)>,
}

/// Pairs of strings as pairs of character sequences.
pub open spec fn pairs_view(v: Seq<(String, String)>) -> Seq<(Seq<char>, Seq<char>)> {
    v.map_values(|p: (String, String)| (p.0@, p.1@))
}

/// The address of the channel search.
pub open spec fn search_url() -> Seq<char> {
    "https://api.twitch.tv/helix/search/channels"@
}

/// Talks to the Twitch API for one channel.
pub struct TwitchApiHandler {
    pub client_id: String,
    pub token: String,
    pub channel: String,
}

impl TwitchApiHandler {
    /// The channel looked up.
    pub open spec fn channel_name(&self) -> Seq<char> {
        self.channel@
    }

    /// A handler for `channel`, sending `client_id` and `token`.
    pub fn set(client_id: String, token: String, channel: String) -> (h: TwitchApiHandler)
        ensures
            h.client_id@ == client_id@,
            h.token@ == token@,
            h.channel_name() == channel@,
    {
        TwitchApiHandler { client_id, channel, token }
    }

    /// The search request: the channel as the `query` parameter, the v5 JSON
    /// `Accept` header, the client ID and the bearer token.
    pub fn search_request(&self) -> (r: ApiRequest)
        ensures
            r.url@ == search_url(),
            pairs_view(r.query@) == seq![("query"@, self.channel_name())],
            pairs_view(r.headers@) == seq![
                ("Accept"@, "application/vnd.twitchtv.v5+json"@),
                ("Client-ID"@, self.client_id@),
                ("Authorization"@, "Bearer "@ + self.token@),
            ],
    {
        let mut query: Vec<(String, String)> = Vec::new();
        query.push((String::from_str("query"), self.channel.clone()));
        let mut auth = String::from_str("Bearer ");
        auth.append(self.token.as_str());
        let mut headers: Vec<(String, String)> = Vec::new();
        headers.push(
            (String::from_str("Accept"), String::from_str("application/vnd.twitchtv.v5+json")),
        );
        headers.push((String::from_str("Client-ID"), self.client_id.clone()));
        headers.push((String::from_str("Authorization"), auth));
        let r = ApiRequest {
            url: String::from_str("https://api.twitch.tv/helix/search/channels"),
            query,
            headers,
        };
        assert(pairs_view(r.query@) =~= seq![("query"@, self.channel_name())]);
        assert(pairs_view(r.headers@) =~= seq![
            ("Accept"@, "application/vnd.twitchtv.v5+json"@),
            ("Client-ID"@, self.client_id@),
            ("Authorization"@, "Bearer "@ + self.token@),
        ]);
        r
    }

    /// Reads the search reply: the id and live state of the last channel whose
    /// login is the handler's channel, or `("0", false)`.
    pub fn find_channel(&self, users: &Vec<TwitchUser>) -> (r: (String, bool))
        ensures
            (r.0@, r.1) == channel_lookup(users_view(users@), self.channel_name()),
            (forall|j: int|
                0 <= j < users@.len() ==> #[trigger] users@[j].broadcaster_login@
                    != self.channel@) ==> r.0@ == seq!['0'] && !r.1,
            (exists|j: int|
                0 <= j < users@.len() && #[trigger] users@[j].broadcaster_login@ == self.channel@)
                ==> exists|i: int|
                0 <= i < users@.len() && #[trigger] users@[i].broadcaster_login@ == self.channel@
                    && r.0@ == users@[i].id@ && r.1 == users@[i].is_live && forall|j: int|
                    i < j < users@.len() ==> #[trigger] users@[j].broadcaster_login@
                        != self.channel@,
    {
        let mut id = String::from_str("0");
        let mut is_live = false;
        proof {
            reveal_strlit("0");
            assert(users_view(users@).take(0) =~= Seq::<(Seq<char>, Seq<char>, bool)>::empty());
        }
        let mut i: usize = 0;
        while i < users.len()
            invariant
                i <= users@.len(),
                (id@, is_live) == channel_lookup(
                    users_view(users@).take(i as int),
                    self.channel_name(),
                ),
            decreases users@.len() - i,
        {
            let u = &users[i];
            proof {
                assert(users_view(users@).take(i + 1).drop_last() =~= users_view(users@).take(
                    i as int,
                ));
            }
            if u.broadcaster_login == self.channel {
                id = u.id.clone();
                is_live = u.is_live;
            }
            i = i + 1;
        }
        proof {
            let uv = users_view(users@);
            assert(uv.take(users@.len() as int) =~= uv);
            lemma_channel_lookup(uv, self.channel@);
            assert forall|j: int| 0 <= j < users@.len() implies #[trigger] uv[j] == users@[j].view_tuple() by {}
            if exists|j: int|
                0 <= j < users@.len() && #[trigger] users@[j].broadcaster_login@ == self.channel@ {
                let j = choose|j: int|
                    0 <= j < users@.len() && #[trigger] users@[j].broadcaster_login@ == self.channel@;
                assert(uv[j].1 == self.channel@);
                let i = choose|i: int|
                    0 <= i < uv.len() && #[trigger] uv[i].1 == self.channel@ && channel_lookup(
                        uv,
                        self.channel@,
                    ) == (uv[i].0, uv[i].2) && forall|k: int|
                        i < k < uv.len() ==> #[trigger] uv[k].1 != self.channel@;
                assert(uv[i] == users@[i].view_tuple());
                assert forall|k: int| i < k < users@.len() implies #[trigger] users@[k].broadcaster_login@
                    != self.channel@ by {
                    assert(uv[k] == users@[k].view_tuple());
                    assert(uv[k].1 != self.channel@);
                }
            } else {
                assert forall|j: int| 0 <= j < uv.len() implies #[trigger] uv[j].1 != self.channel@ by {
                    assert(uv[j] == users@[j].view_tuple());
                }
            }
        }
        (id, is_live)
    }
}

} // verus!
