//! The requests of the client, as far as they are computed: each method says
//! where its request goes. Sending it is left to the caller.
use vstd::prelude::*;
use crate::requests::statuses::StatusesRequest;
use crate::text::{decimal, decimal_string, join, joined, texts};

verus! {

/// Raw data about mastodon app. Save `Data` to prevent needing to
/// authenticate on every run.
#[derive(Clone, Debug)]
pub struct Data {
    /// Base url of instance eg. `https://mastodon.social`.
    pub base: String,
    /// The client's id given by the instance.
    pub client_id: String,
    /// The client's secret given by the instance.
    pub client_secret: String,
    /// Url to redirect back to your application from the instance signup.
    pub redirect: String,
    /// The client's access token.
    pub token: String,
}

/// Your mastodon application client: it knows where each request goes.
#[derive(Clone, Debug)]
pub struct Mastodon {
    /// Raw data about your mastodon instance.
    pub data: Data,
}

/// The query string of a request, or nothing where no request is given.
pub open spec fn query_of(request: Option<StatusesRequest>) -> Seq<char> {
    match request {
        Some(request) => request@.querystring(),
        None => Seq::empty(),
    }
}

/// The ids as parameters of a list: `id[]=` before each.
pub open spec fn id_params(ids: Seq<Seq<char>>) -> Seq<Seq<char>> {
    ids.map_values(|id: Seq<char>| "id[]="@ + id)
}

/// The path of the request for the relationships to the accounts `ids`: a
/// single id stands alone, several stand as a list, with `&` between them.
pub open spec fn relationships_path(ids: Seq<Seq<char>>) -> Seq<char> {
    if ids.len() == 1 {
        "/api/v1/accounts/relationships?id="@ + ids[0]
    } else if ids.len() == 0 {
        "/api/v1/accounts/relationships"@
    } else {
        "/api/v1/accounts/relationships?"@ + joined(id_params(ids), "&"@)
    }
}

/// The number of accounts that a search asks for: 40 unless it says
/// otherwise.
pub open spec fn search_limit(limit: Option<u64>) -> nat {
    match limit {
        Some(limit) => limit as nat,
        None => 40,
    }
}

/// How a flag stands in a query.
pub open spec fn flag_text(flag: bool) -> Seq<char> {
    if flag {
        "true"@
    } else {
        "false"@
    }
}

/// What restricts a timeline to the statuses of the instance itself.
pub open spec fn local_query(local: bool) -> Seq<char> {
    if local {
        "?local=1"@
    } else {
        Seq::empty()
    }
}

impl Mastodon {
    /// Creates a mastodon instance from what a registration gave.
    pub fn from_registration(
        base: String,
        client_id: String,
        client_secret: String,
        redirect: String,
        token: String,
    ) -> (client: Mastodon)
        ensures
            client.data == (Data { base, client_id, client_secret, redirect, token }),
    {
        Mastodon { data: Data { base, client_id, client_secret, redirect, token } }
    }

    /// Creates a mastodon instance from the data struct.
    pub fn from_data(data: Data) -> (client: Mastodon)
        ensures
            client.data == data,
    {
        Mastodon { data }
    }

    /// The URL of the path `url` on the instance.
    pub fn route(&self, url: &str) -> (route: String)
        ensures
            route@ == self.data.base@ + url@,
    {
        let mut route = self.data.base.clone();
        route.append(url);
        route
    }

    /// Where the changes of the credentials go.
    pub fn update_credentials(&self) -> (url: String)
        ensures
            url@ == self.data.base@ + "/api/v1/accounts/update_credentials"@,
    {
        self.route("/api/v1/accounts/update_credentials")
    }

    /// Where a new status is posted to.
    pub fn new_status(&self) -> (url: String)
        ensures
            url@ == self.data.base@ + "/api/v1/statuses"@,
    {
        self.route("/api/v1/statuses")
    }

    /// Where the federated timeline of the instance is, or with `local` the
    /// timeline of the instance itself.
    pub fn get_public_timeline(&self, local: bool) -> (url: String)
        ensures
            url@ == self.data.base@ + "/api/v1/timelines/public"@ + local_query(local),
    {
        let mut url = self.route("/api/v1/timelines/public");
        if local {
            url.append("?local=1");
        }
        assert(url@ =~= self.data.base@ + "/api/v1/timelines/public"@ + local_query(local));
        url
    }

    /// Where the timeline of a hashtag (eg. `coffee`) is, either of the
    /// instance itself or federated.
    pub fn get_tagged_timeline(&self, hashtag: &str, local: bool) -> (url: String)
        ensures
            url@ == self.data.base@ + "/api/v1/timelines/tag/"@ + hashtag@ + local_query(local),
    {
        let mut url = self.route("/api/v1/timelines/tag/");
        url.append(hashtag);
        if local {
            url.append("?local=1");
        }
        assert(url@ =~= self.data.base@ + "/api/v1/timelines/tag/"@ + hashtag@ + local_query(
            local,
        ));
        url
    }

    /// Where the statuses of the account `id` are, with the options of
    /// `request` as the query.
    pub fn statuses(&self, id: &str, request: Option<StatusesRequest>) -> (url: String)
        ensures
            url@ == self.data.base@ + "/api/v1/accounts/"@ + id@ + "/statuses"@ + query_of(
                request,
            ),
    {
        let mut url = self.route("/api/v1/accounts/");
        url.append(id);
        url.append("/statuses");
        if let Some(request) = request {
            url.append(request.to_querystring().as_str());
        }
        assert(url@ =~= self.data.base@ + "/api/v1/accounts/"@ + id@ + "/statuses"@ + query_of(
            request,
        ));
        url
    }

    /// Where the relationships of the client's account to the accounts `ids`
    /// are: whether they follow them, or the other way round.
    pub fn relationships(&self, ids: &Vec<String>) -> (url: String)
        ensures
            url@ == self.data.base@ + relationships_path(texts(ids@)),
    {
        if ids.len() == 1 {
            let mut url = self.route("/api/v1/accounts/relationships?id=");
            url.append(ids[0].as_str());
            assert(url@ =~= self.data.base@ + relationships_path(texts(ids@)));
            url
        } else if ids.len() == 0 {
            self.route("/api/v1/accounts/relationships")
        } else {
            let mut params: Vec<String> = Vec::new();
            let mut i: usize = 0;
            while i < ids.len()
                invariant
                    i <= ids.len(),
                    texts(params@) =~= id_params(texts(ids@)).take(i as int),
                decreases ids.len() - i,
            {
                let mut param = "id[]=".to_owned();
                param.append(ids[i].as_str());
                let ghost before = params@;
                params.push(param);
                assert(texts(ids@)[i as int] == ids@[i as int]@);
                assert(id_params(texts(ids@))[i as int] == param@);
                assert(texts(params@) =~= texts(before).push(param@));
                assert(texts(params@) =~= id_params(texts(ids@)).take(i as int + 1));
                i += 1;
            }
            assert(texts(params@) =~= id_params(texts(ids@)));
            let mut url = self.route("/api/v1/accounts/relationships?");
            url.append(join(&params, "&").as_str());
            assert(url@ =~= self.data.base@ + relationships_path(texts(ids@)));
            url
        }
    }

    /// Where the accounts with a name like `query` are searched: `limit`
    /// accounts at most, 40 where none is given, and with `following` only
    /// among those that the client's account follows.
    pub fn search_accounts(&self, query: &str, limit: Option<u64>, following: bool) -> (url: String)
        ensures
            url@ == self.data.base@ + "/api/v1/accounts/search?q="@ + query@ + "&limit="@
                + decimal(search_limit(limit)) + "&following="@ + flag_text(following),
    {
        let limit: u64 = match limit {
            Some(limit) => limit,
            None => 40,
        };
        let mut url = self.route("/api/v1/accounts/search?q=");
        url.append(query);
        url.append("&limit=");
        url.append(decimal_string(limit).as_str());
        url.append("&following=");
        url.append(if following { "true" } else { "false" });
        assert(url@ =~= self.data.base@ + "/api/v1/accounts/search?q="@ + query@ + "&limit="@
            + decimal(limit as nat) + "&following="@ + flag_text(following));
        url
    }
}

} // verus!
