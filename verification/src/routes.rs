//! The endpoints the service answers, as Ollama exposes them.

use vstd::prelude::*;

verus! {

/// The HTTP methods the endpoints use.
#[derive(Clone, Copy, Debug, PartialEq, Eq)]
pub enum Method {
    Get,
    Post,
    Delete,
}

/// The handlers behind the endpoints.
#[derive(Clone, Copy, Debug, PartialEq, Eq)]
pub enum Endpoint {
    Generate,
    Chat,
    ListModels,
    ListRunning,
    ShowModel,
    CopyModel,
    DeleteModel,
    PullModel,
    Root,
    Version,
}

/// One entry of the route table.
#[derive(Clone, Debug)]
pub struct Route {
    pub method: Method,
    pub path: &'static str,
    pub endpoint: Endpoint,
}

/// The route table: the Ollama API endpoints, the health check and the
/// version endpoint.
pub open spec fn route_table() -> Seq<(Method, Seq<char>, Endpoint)> {
    seq![
        (Method::Post, "/api/generate"@, Endpoint::Generate),
        (Method::Post, "/api/chat"@, Endpoint::Chat),
        (Method::Get, "/api/tags"@, Endpoint::ListModels),
        (Method::Get, "/api/ps"@, Endpoint::ListRunning),
        (Method::Post, "/api/show"@, Endpoint::ShowModel),
        (Method::Post, "/api/copy"@, Endpoint::CopyModel),
        (Method::Delete, "/api/delete"@, Endpoint::DeleteModel),
        (Method::Post, "/api/pull"@, Endpoint::PullModel),
        (Method::Get, "/"@, Endpoint::Root),
        (Method::Get, "/api/version"@, Endpoint::Version),
    ]
}

/// The content of a route.
pub open spec fn route_view(r: Route) -> (Method, Seq<char>, Endpoint) {
    (r.method, r.path@, r.endpoint)
}

/// The route table, in order.
pub fn routes() -> (r: Vec<Route>)
    ensures
        r@.map_values(|x: Route| route_view(x)) == route_table(),
{
    let r = vec![
        Route { method: Method::Post, path: "/api/generate", endpoint: Endpoint::Generate },
        Route { method: Method::Post, path: "/api/chat", endpoint: Endpoint::Chat },
        Route { method: Method::Get, path: "/api/tags", endpoint: Endpoint::ListModels },
        Route { method: Method::Get, path: "/api/ps", endpoint: Endpoint::ListRunning },
        Route { method: Method::Post, path: "/api/show", endpoint: Endpoint::ShowModel },
        Route { method: Method::Post, path: "/api/copy", endpoint: Endpoint::CopyModel },
        Route { method: Method::Delete, path: "/api/delete", endpoint: Endpoint::DeleteModel },
        Route { method: Method::Post, path: "/api/pull", endpoint: Endpoint::PullModel },
        Route { method: Method::Get, path: "/", endpoint: Endpoint::Root },
        Route { method: Method::Get, path: "/api/version", endpoint: Endpoint::Version },
    ];
    assert(r@.map_values(|x: Route| route_view(x)) =~= route_table());
    r
}

/// Where the generated documentation is served: the URL prefix and the
/// directory it is read from.
pub fn docs_mount() -> (r: (&'static str, &'static str))
    ensures
        r.0@ == "/docs"@,
        r.1@ == "target/doc"@,
{
    ("/docs", "target/doc")
}

/// No two routes share a path, so each path is answered by one handler.
pub proof fn lemma_route_paths_distinct()
    ensures
        forall|i: int, j: int|
            0 <= i < j < route_table().len() ==> route_table()[i].1 != route_table()[j].1,
{
    reveal_strlit("/api/generate");
    reveal_strlit("/api/chat");
    reveal_strlit("/api/tags");
    reveal_strlit("/api/ps");
    reveal_strlit("/api/show");
    reveal_strlit("/api/copy");
    reveal_strlit("/api/delete");
    reveal_strlit("/api/pull");
    reveal_strlit("/");
    reveal_strlit("/api/version");
    let t = route_table();
    assert(t[0].1.len() == 13 && t[1].1.len() == 9 && t[2].1.len() == 9 && t[3].1.len() == 7);
    assert(t[4].1.len() == 9 && t[5].1.len() == 9 && t[6].1.len() == 11 && t[7].1.len() == 9);
    assert(t[8].1.len() == 1 && t[9].1.len() == 12);
    assert(t[1].1[5] == 'c' && t[1].1[6] == 'h');
    assert(t[2].1[5] == 't');
    assert(t[4].1[5] == 's');
    assert(t[5].1[5] == 'c' && t[5].1[6] == 'o');
    assert(t[7].1[5] == 'p');
    assert forall|i: int, j: int| 0 <= i < j < t.len() implies t[i].1 != t[j].1 by {
        if t[i].1 == t[j].1 {
            assert(t[i].1[5] == t[j].1[5] && t[i].1[6] == t[j].1[6]);
            assert(i == 0 || i == 1 || i == 2 || i == 3 || i == 4 || i == 5 || i == 6 || i == 7 || i == 8);
        }
    }
}

/// Some entry of the route table leads to handler `e`.
pub open spec fn is_routed(e: Endpoint) -> bool {
    exists|i: int| 0 <= i < route_table().len() && (#[trigger] route_table()[i]).2 == e
}

/// Which handler answers a path: the generate handler answers POST
/// `/api/generate`, the chat handler POST `/api/chat`, the model list GET
/// `/api/tags`, the running list GET `/api/ps`, the model management
/// handlers POST `/api/show`, POST `/api/copy`, DELETE `/api/delete` and
/// POST `/api/pull`, the health check GET `/` and the version GET
/// `/api/version`; whichever entry of the table holds one of these paths
/// routes it so, and every handler is reached by some entry.
pub proof fn lemma_route_endpoints()
    ensures
        forall|i: int|
            0 <= i < route_table().len() ==> {
                let (m, p, e) = #[trigger] route_table()[i];
                &&& p == "/api/generate"@ ==> m == Method::Post && e == Endpoint::Generate
                &&& p == "/api/chat"@ ==> m == Method::Post && e == Endpoint::Chat
                &&& p == "/api/tags"@ ==> m == Method::Get && e == Endpoint::ListModels
                &&& p == "/api/ps"@ ==> m == Method::Get && e == Endpoint::ListRunning
                &&& p == "/api/show"@ ==> m == Method::Post && e == Endpoint::ShowModel
                &&& p == "/api/copy"@ ==> m == Method::Post && e == Endpoint::CopyModel
                &&& p == "/api/delete"@ ==> m == Method::Delete && e == Endpoint::DeleteModel
                &&& p == "/api/pull"@ ==> m == Method::Post && e == Endpoint::PullModel
                &&& p == "/"@ ==> m == Method::Get && e == Endpoint::Root
                &&& p == "/api/version"@ ==> m == Method::Get && e == Endpoint::Version
            },
        forall|e: Endpoint| #[trigger] is_routed(e),
{
    lemma_route_paths_distinct();
    let t = route_table();
    assert(t[0].1 == "/api/generate"@ && t[1].1 == "/api/chat"@ && t[2].1 == "/api/tags"@);
    assert(t[3].1 == "/api/ps"@ && t[4].1 == "/api/show"@ && t[5].1 == "/api/copy"@);
    assert(t[6].1 == "/api/delete"@ && t[7].1 == "/api/pull"@ && t[8].1 == "/"@);
    assert(t[9].1 == "/api/version"@);
    assert forall|i: int| 0 <= i < t.len() implies {
        let (m, p, e) = #[trigger] t[i];
        &&& p == "/api/generate"@ ==> m == Method::Post && e == Endpoint::Generate
        &&& p == "/api/chat"@ ==> m == Method::Post && e == Endpoint::Chat
        &&& p == "/api/tags"@ ==> m == Method::Get && e == Endpoint::ListModels
        &&& p == "/api/ps"@ ==> m == Method::Get && e == Endpoint::ListRunning
        &&& p == "/api/show"@ ==> m == Method::Post && e == Endpoint::ShowModel
        &&& p == "/api/copy"@ ==> m == Method::Post && e == Endpoint::CopyModel
        &&& p == "/api/delete"@ ==> m == Method::Delete && e == Endpoint::DeleteModel
        &&& p == "/api/pull"@ ==> m == Method::Post && e == Endpoint::PullModel
        &&& p == "/"@ ==> m == Method::Get && e == Endpoint::Root
        &&& p == "/api/version"@ ==> m == Method::Get && e == Endpoint::Version
    } by {
        assert forall|k: int| 0 <= k < t.len() && k != i implies t[k].1 != t[i].1 by {
            if k < i {
                assert(t[k].1 != t[i].1);
            } else {
                assert(t[i].1 != t[k].1);
            }
        }
        assert(t[0].1 != t[i].1 || i == 0);
        assert(t[1].1 != t[i].1 || i == 1);
        assert(t[2].1 != t[i].1 || i == 2);
        assert(t[3].1 != t[i].1 || i == 3);
        assert(t[4].1 != t[i].1 || i == 4);
        assert(t[5].1 != t[i].1 || i == 5);
        assert(t[6].1 != t[i].1 || i == 6);
        assert(t[7].1 != t[i].1 || i == 7);
        assert(t[8].1 != t[i].1 || i == 8);
        assert(t[9].1 != t[i].1 || i == 9);
    }
    assert forall|e: Endpoint| #[trigger] is_routed(e) by {
        match e {
            Endpoint::Generate => assert(t[0].2 == e),
            Endpoint::Chat => assert(t[1].2 == e),
            Endpoint::ListModels => assert(t[2].2 == e),
            Endpoint::ListRunning => assert(t[3].2 == e),
            Endpoint::ShowModel => assert(t[4].2 == e),
            Endpoint::CopyModel => assert(t[5].2 == e),
            Endpoint::DeleteModel => assert(t[6].2 == e),
            Endpoint::PullModel => assert(t[7].2 == e),
            Endpoint::Root => assert(t[8].2 == e),
            Endpoint::Version => assert(t[9].2 == e),
        }
    }
}

} // verus!
