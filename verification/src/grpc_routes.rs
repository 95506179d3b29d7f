//! The gRPC methods of the edge registry and of the general materializer, and
//! the request paths that name them.
//!
//! A client sends each call to its method's path; a server dispatches a
//! request by its path, and answers a path that names no method with the gRPC
//! status `UNIMPLEMENTED_GRPC_STATUS`.
use vstd::prelude::*;

verus! {

/// The gRPC status that answers a request for a method the server lacks.
pub const UNIMPLEMENTED_GRPC_STATUS: u16 = 12;

/// A complete answer of a server: HTTP status, the `grpc-status` and
/// `content-type` headers, and the body.
#[derive(Debug)]
pub struct GrpcAnswer {
    pub http_status: u16,
    pub grpc_status: String,
    pub content_type: String,
    pub body: Vec<u8>,
}

/// What a server does with a request: call one of its methods, or answer at
/// once.
#[derive(Debug)]
pub enum Dispatch<M> {
    Call(M),
    Answer(GrpcAnswer),
}

/// Whether `a` is the answer to a path that names no method: HTTP 200,
/// `grpc-status` 12 (unimplemented), content type `application/grpc`, no body.
pub open spec fn is_unimplemented_answer(a: GrpcAnswer) -> bool {
    &&& a.http_status == 200
    &&& a.grpc_status@ == "12"@
    &&& a.content_type@ == "application/grpc"@
    &&& a.body@.len() == 0
}

/// The answer to a request whose path names no method of the server.
pub fn unimplemented_answer() -> (a: GrpcAnswer)
    ensures
        is_unimplemented_answer(a),
{
    GrpcAnswer {
        http_status: 200,
        grpc_status: "12".to_owned(),
        content_type: "application/grpc".to_owned(),
        body: Vec::new(),
    }
}

/// The methods of the edge registry service.
#[derive(PartialEq, Eq, Structural, Clone, Copy, Debug)]
pub enum EdgeRegistryMethod {
    AddRelation,
    GetRelation,
    GetSchemaByRelation,
    GetSchemaRelations,
    ValidateRelation,
    AddEdges,
    GetEdge,
    GetEdges,
    Heartbeat,
    ResolveTree,
}

/// The methods of the general materializer service.
#[derive(PartialEq, Eq, Structural, Clone, Copy, Debug)]
pub enum GeneralMaterializerMethod {
    ValidateOptions,
    UpsertView,
}

pub open spec fn edge_registry_path(m: EdgeRegistryMethod) -> Seq<char> {
    match m {
        EdgeRegistryMethod::AddRelation => "/edge_registry.EdgeRegistry/AddRelation"@,
        EdgeRegistryMethod::GetRelation => "/edge_registry.EdgeRegistry/GetRelation"@,
        EdgeRegistryMethod::GetSchemaByRelation => "/edge_registry.EdgeRegistry/GetSchemaByRelation"@,
        EdgeRegistryMethod::GetSchemaRelations => "/edge_registry.EdgeRegistry/GetSchemaRelations"@,
        EdgeRegistryMethod::ValidateRelation => "/edge_registry.EdgeRegistry/ValidateRelation"@,
        EdgeRegistryMethod::AddEdges => "/edge_registry.EdgeRegistry/AddEdges"@,
        EdgeRegistryMethod::GetEdge => "/edge_registry.EdgeRegistry/GetEdge"@,
        EdgeRegistryMethod::GetEdges => "/edge_registry.EdgeRegistry/GetEdges"@,
        EdgeRegistryMethod::Heartbeat => "/edge_registry.EdgeRegistry/Heartbeat"@,
        EdgeRegistryMethod::ResolveTree => "/edge_registry.EdgeRegistry/ResolveTree"@,
    }
}

/// The edge registry method whose path is `p`, if any.
pub open spec fn edge_registry_route(p: Seq<char>) -> Option<EdgeRegistryMethod> {
    if p == "/edge_registry.EdgeRegistry/AddRelation"@ {
        Some(EdgeRegistryMethod::AddRelation)
    } else if p == "/edge_registry.EdgeRegistry/GetRelation"@ {
        Some(EdgeRegistryMethod::GetRelation)
    } else if p == "/edge_registry.EdgeRegistry/GetSchemaByRelation"@ {
        Some(EdgeRegistryMethod::GetSchemaByRelation)
    } else if p == "/edge_registry.EdgeRegistry/GetSchemaRelations"@ {
        Some(EdgeRegistryMethod::GetSchemaRelations)
    } else if p == "/edge_registry.EdgeRegistry/ValidateRelation"@ {
        Some(EdgeRegistryMethod::ValidateRelation)
    } else if p == "/edge_registry.EdgeRegistry/AddEdges"@ {
        Some(EdgeRegistryMethod::AddEdges)
    } else if p == "/edge_registry.EdgeRegistry/GetEdge"@ {
        Some(EdgeRegistryMethod::GetEdge)
    } else if p == "/edge_registry.EdgeRegistry/GetEdges"@ {
        Some(EdgeRegistryMethod::GetEdges)
    } else if p == "/edge_registry.EdgeRegistry/Heartbeat"@ {
        Some(EdgeRegistryMethod::Heartbeat)
    } else if p == "/edge_registry.EdgeRegistry/ResolveTree"@ {
        Some(EdgeRegistryMethod::ResolveTree)
    } else {
        None
    }
}

pub open spec fn general_materializer_path(m: GeneralMaterializerMethod) -> Seq<char> {
    match m {
        GeneralMaterializerMethod::ValidateOptions => "/materializer_general.GeneralMaterializer/ValidateOptions"@,
        GeneralMaterializerMethod::UpsertView => "/materializer_general.GeneralMaterializer/UpsertView"@,
    }
}

/// The general materializer method whose path is `p`, if any.
pub open spec fn general_materializer_route(p: Seq<char>) -> Option<GeneralMaterializerMethod> {
    if p == "/materializer_general.GeneralMaterializer/ValidateOptions"@ {
        Some(GeneralMaterializerMethod::ValidateOptions)
    } else if p == "/materializer_general.GeneralMaterializer/UpsertView"@ {
        Some(GeneralMaterializerMethod::UpsertView)
    } else {
        None
    }
}

fn str_eq(a: &str, b: &str) -> (r: bool)
    ensures
        r == (a@ == b@),
{
    a.to_owned() == b.to_owned()
}

impl EdgeRegistryMethod {
    /// The path a client sends this method's calls to.
    pub fn path(self) -> (p: &'static str)
        ensures
            p@ == edge_registry_path(self),
    {
        match self {
            EdgeRegistryMethod::AddRelation => "/edge_registry.EdgeRegistry/AddRelation",
            EdgeRegistryMethod::GetRelation => "/edge_registry.EdgeRegistry/GetRelation",
            EdgeRegistryMethod::GetSchemaByRelation => "/edge_registry.EdgeRegistry/GetSchemaByRelation",
            EdgeRegistryMethod::GetSchemaRelations => "/edge_registry.EdgeRegistry/GetSchemaRelations",
            EdgeRegistryMethod::ValidateRelation => "/edge_registry.EdgeRegistry/ValidateRelation",
            EdgeRegistryMethod::AddEdges => "/edge_registry.EdgeRegistry/AddEdges",
            EdgeRegistryMethod::GetEdge => "/edge_registry.EdgeRegistry/GetEdge",
            EdgeRegistryMethod::GetEdges => "/edge_registry.EdgeRegistry/GetEdges",
            EdgeRegistryMethod::Heartbeat => "/edge_registry.EdgeRegistry/Heartbeat",
            EdgeRegistryMethod::ResolveTree => "/edge_registry.EdgeRegistry/ResolveTree",
        }
    }

    /// The server's dispatch: the method that a request path names, or `None`
    /// for a path that names none.
    pub fn from_path(path: &str) -> (m: Option<EdgeRegistryMethod>)
        ensures
            m == edge_registry_route(path@),
    {
        let all = [
            EdgeRegistryMethod::AddRelation,
            EdgeRegistryMethod::GetRelation,
            EdgeRegistryMethod::GetSchemaByRelation,
            EdgeRegistryMethod::GetSchemaRelations,
            EdgeRegistryMethod::ValidateRelation,
            EdgeRegistryMethod::AddEdges,
            EdgeRegistryMethod::GetEdge,
            EdgeRegistryMethod::GetEdges,
            EdgeRegistryMethod::Heartbeat,
            EdgeRegistryMethod::ResolveTree,
        ];
        if str_eq(path, all[0].path()) {
            Some(all[0])
        } else if str_eq(path, all[1].path()) {
            Some(all[1])
        } else if str_eq(path, all[2].path()) {
            Some(all[2])
        } else if str_eq(path, all[3].path()) {
            Some(all[3])
        } else if str_eq(path, all[4].path()) {
            Some(all[4])
        } else if str_eq(path, all[5].path()) {
            Some(all[5])
        } else if str_eq(path, all[6].path()) {
            Some(all[6])
        } else if str_eq(path, all[7].path()) {
            Some(all[7])
        } else if str_eq(path, all[8].path()) {
            Some(all[8])
        } else if str_eq(path, all[9].path()) {
            Some(all[9])
        } else {
            None
        }
    }
}

impl EdgeRegistryMethod {
    /// The edge registry server's handling of a request path: call the
    /// method it names, or answer that the method is unimplemented.
    pub fn dispatch(path: &str) -> (d: Dispatch<EdgeRegistryMethod>)
        ensures
            match edge_registry_route(path@) {
                Some(m) => d matches Dispatch::Call(c) && c == m,
                None => d matches Dispatch::Answer(a) && is_unimplemented_answer(a),
            },
    {
        match Self::from_path(path) {
            Some(m) => Dispatch::Call(m),
            None => Dispatch::Answer(unimplemented_answer()),
        }
    }
}

impl GeneralMaterializerMethod {
    /// The general materializer server's handling of a request path: call
    /// the method it names, or answer that the method is unimplemented.
    pub fn dispatch(path: &str) -> (d: Dispatch<GeneralMaterializerMethod>)
        ensures
            match general_materializer_route(path@) {
                Some(m) => d matches Dispatch::Call(c) && c == m,
                None => d matches Dispatch::Answer(a) && is_unimplemented_answer(a),
            },
    {
        match Self::from_path(path) {
            Some(m) => Dispatch::Call(m),
            None => Dispatch::Answer(unimplemented_answer()),
        }
    }

    /// The path a client sends this method's calls to.
    pub fn path(self) -> (p: &'static str)
        ensures
            p@ == general_materializer_path(self),
    {
        match self {
            GeneralMaterializerMethod::ValidateOptions => "/materializer_general.GeneralMaterializer/ValidateOptions",
            GeneralMaterializerMethod::UpsertView => "/materializer_general.GeneralMaterializer/UpsertView",
        }
    }

    /// The server's dispatch: the method that a request path names, or `None`
    /// for a path that names none.
    pub fn from_path(path: &str) -> (m: Option<GeneralMaterializerMethod>)
        ensures
            m == general_materializer_route(path@),
    {
        if str_eq(path, GeneralMaterializerMethod::ValidateOptions.path()) {
            Some(GeneralMaterializerMethod::ValidateOptions)
        } else if str_eq(path, GeneralMaterializerMethod::UpsertView.path()) {
            Some(GeneralMaterializerMethod::UpsertView)
        } else {
            None
        }
    }
}

/// A server dispatches every client call to the method the client called:
/// the path of a method routes back to that method.
pub proof fn lemma_edge_registry_routes_back(m: EdgeRegistryMethod)
    ensures
        edge_registry_route(edge_registry_path(m)) == Some(m),
{
    reveal_strlit("/edge_registry.EdgeRegistry/AddRelation");
    reveal_strlit("/edge_registry.EdgeRegistry/GetRelation");
    reveal_strlit("/edge_registry.EdgeRegistry/GetSchemaByRelation");
    reveal_strlit("/edge_registry.EdgeRegistry/GetSchemaRelations");
    reveal_strlit("/edge_registry.EdgeRegistry/ValidateRelation");
    reveal_strlit("/edge_registry.EdgeRegistry/AddEdges");
    reveal_strlit("/edge_registry.EdgeRegistry/GetEdge");
    reveal_strlit("/edge_registry.EdgeRegistry/GetEdges");
    reveal_strlit("/edge_registry.EdgeRegistry/Heartbeat");
    reveal_strlit("/edge_registry.EdgeRegistry/ResolveTree");
    assert(edge_registry_path(EdgeRegistryMethod::AddRelation).len() == 39);
    assert(edge_registry_path(EdgeRegistryMethod::AddRelation)[28] == 'A');
    assert(edge_registry_path(EdgeRegistryMethod::GetRelation).len() == 39);
    assert(edge_registry_path(EdgeRegistryMethod::GetRelation)[28] == 'G');
    assert(edge_registry_path(EdgeRegistryMethod::GetSchemaByRelation).len() == 47);
    assert(edge_registry_path(EdgeRegistryMethod::GetSchemaByRelation)[28] == 'G');
    assert(edge_registry_path(EdgeRegistryMethod::GetSchemaRelations).len() == 46);
    assert(edge_registry_path(EdgeRegistryMethod::GetSchemaRelations)[28] == 'G');
    assert(edge_registry_path(EdgeRegistryMethod::ValidateRelation).len() == 44);
    assert(edge_registry_path(EdgeRegistryMethod::ValidateRelation)[28] == 'V');
    assert(edge_registry_path(EdgeRegistryMethod::AddEdges).len() == 36);
    assert(edge_registry_path(EdgeRegistryMethod::AddEdges)[28] == 'A');
    assert(edge_registry_path(EdgeRegistryMethod::GetEdge).len() == 35);
    assert(edge_registry_path(EdgeRegistryMethod::GetEdge)[28] == 'G');
    assert(edge_registry_path(EdgeRegistryMethod::GetEdges).len() == 36);
    assert(edge_registry_path(EdgeRegistryMethod::GetEdges)[28] == 'G');
    assert(edge_registry_path(EdgeRegistryMethod::Heartbeat).len() == 37);
    assert(edge_registry_path(EdgeRegistryMethod::Heartbeat)[28] == 'H');
    assert(edge_registry_path(EdgeRegistryMethod::ResolveTree).len() == 39);
    assert(edge_registry_path(EdgeRegistryMethod::ResolveTree)[28] == 'R');
}

/// A server dispatches every client call to the method the client called:
/// the path of a method routes back to that method.
pub proof fn lemma_general_materializer_routes_back(m: GeneralMaterializerMethod)
    ensures
        general_materializer_route(general_materializer_path(m)) == Some(m),
{
    reveal_strlit("/materializer_general.GeneralMaterializer/ValidateOptions");
    reveal_strlit("/materializer_general.GeneralMaterializer/UpsertView");
    let a = "/materializer_general.GeneralMaterializer/ValidateOptions"@;
    let b = "/materializer_general.GeneralMaterializer/UpsertView"@;
    assert(a.len() == 57);
    assert(b.len() == 52);
    assert(a != b);
}

} // verus!
