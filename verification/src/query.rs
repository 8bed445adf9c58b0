//! The decisions of reading the geoarrow type of a schema: the pointer
//! checks, the schema checks, then the code of the type that arrow-rs and
//! geoarrow-rs make of the field. The caller makes the reads and the
//! conversion; on failure it writes no type.
use vstd::prelude::*;

use crate::data_type::{geoarrow_type, lemma_code_names_a_declared_constant, GeoArrowDataType};
use crate::error::SchemaError;
use crate::schema::{
    answers, lemma_advance, lemma_request, lemma_start, start_state, SchemaMemory, SchemaRead,
    SchemaReply, SchemaWalk, WalkRequest, WalkState,
};
use crate::types::GeoArrowType;

verus! {

/// What a query asks for next.
#[derive(Debug)]
pub enum QueryRequest {
    /// A read of the schema tree.
    Read(SchemaRead),
    /// The schema at this handle passed its checks: convert it to a field
    /// and classify it as a geoarrow data type.
    Convert(usize),
    /// Nothing more: the type to write, or why none is written.
    Done(Result<GeoArrowType, SchemaError>),
}

/// Reading the geoarrow type of a schema, in progress.
#[derive(Debug)]
pub enum SchemaTypeQuery {
    /// The checks of the schema tree at the root handle are under way.
    Walking(usize, SchemaWalk),
    /// The schema at this handle passed; its conversion comes next.
    Converting(usize),
    Done(Result<GeoArrowType, SchemaError>),
}

/// The state of a query.
pub ghost enum QueryState {
    Walking(usize, WalkState),
    Converting(usize),
    Done(Result<GeoArrowType, SchemaError>),
}

impl View for SchemaTypeQuery {
    type V = QueryState;

    open spec fn view(&self) -> QueryState {
        match self {
            SchemaTypeQuery::Walking(root, w) => QueryState::Walking(*root, w@),
            SchemaTypeQuery::Converting(root) => QueryState::Converting(*root),
            SchemaTypeQuery::Done(r) => QueryState::Done(*r),
        }
    }
}

/// What a query reports given what the conversion gives back.
pub open spec fn converted(conversion: Result<GeoArrowDataType, SchemaError>) -> Result<
    GeoArrowType,
    SchemaError,
> {
    match conversion {
        Ok(t) => Ok(t.spec_geoarrow_type()),
        Err(e) => Err(e),
    }
}

/// The walk is over: go on to the conversion, or report its error.
pub open spec fn after_walk(root: usize, w: WalkState) -> QueryState {
    match w.finished {
        None => QueryState::Walking(root, w),
        Some(Ok(_)) => QueryState::Converting(root),
        Some(Err(e)) => QueryState::Done(Err(e)),
    }
}

/// The state of a query on the schema `schema` (`None` for a null pointer),
/// writing through a pointer that is non-null when `out_present`.
pub open spec fn query_start(schema: Option<usize>, out_present: bool) -> QueryState {
    match schema {
        None => QueryState::Done(Err(SchemaError::SchemaNull)),
        Some(root) => if !out_present {
            QueryState::Done(Err(SchemaError::OutTypeNull))
        } else {
            QueryState::Walking(root, start_state(root))
        },
    }
}

/// The reads and the result of the whole query, for the memory `m` and the
/// conversion result `conversion`.
pub open spec fn schema_type(
    m: SchemaMemory,
    schema: Option<usize>,
    out_present: bool,
    conversion: Result<GeoArrowDataType, SchemaError>,
) -> (Seq<SchemaRead>, Result<GeoArrowType, SchemaError>) {
    match schema {
        None => (Seq::empty(), Err(SchemaError::SchemaNull)),
        Some(root) => if !out_present {
            (Seq::empty(), Err(SchemaError::OutTypeNull))
        } else {
            let checked = m.validate(root);
            (
                checked.0,
                match checked.1 {
                    Err(e) => Err(e),
                    Ok(_) => converted(conversion),
                },
            )
        },
    }
}

impl QueryState {
    /// What the query asks for in this state.
    pub open spec fn request(self) -> QueryRequest {
        match self {
            QueryState::Walking(root, w) => match w.request() {
                WalkRequest::Read(r) => QueryRequest::Read(r),
                WalkRequest::Done(_) => QueryRequest::Convert(root),
            },
            QueryState::Converting(root) => QueryRequest::Convert(root),
            QueryState::Done(r) => QueryRequest::Done(r),
        }
    }

    /// The state after the reader answers a read. Anything else leaves the
    /// state as it is.
    pub open spec fn advance(self, reply: SchemaReply) -> QueryState {
        match self {
            QueryState::Walking(root, w) => after_walk(root, w.advance(reply)),
            _ => self,
        }
    }

    /// The state after the conversion gives back `conversion`.
    pub open spec fn convert(self, conversion: Result<GeoArrowDataType, SchemaError>) -> QueryState {
        match self {
            QueryState::Converting(_) => QueryState::Done(converted(conversion)),
            _ => self,
        }
    }

    /// Everything read so far agrees with `m`.
    pub open spec fn agrees_with(self, m: SchemaMemory) -> bool {
        match self {
            QueryState::Walking(_, w) => w.agrees_with(m) && w.finished is None,
            _ => true,
        }
    }

    /// The reads still to make, and the result the query will report when
    /// the conversion gives back `conversion`.
    pub open spec fn remaining(
        self,
        m: SchemaMemory,
        conversion: Result<GeoArrowDataType, SchemaError>,
    ) -> (Seq<SchemaRead>, Result<GeoArrowType, SchemaError>) {
        match self {
            QueryState::Walking(_, w) => {
                let rest = w.remaining(m);
                (
                    rest.0,
                    match rest.1 {
                        Err(e) => Err(e),
                        Ok(_) => converted(conversion),
                    },
                )
            },
            QueryState::Converting(_) => (Seq::empty(), converted(conversion)),
            QueryState::Done(r) => (Seq::empty(), r),
        }
    }
}

/// A query starts with all of its reads and its result ahead of it.
pub proof fn lemma_query_start(
    m: SchemaMemory,
    schema: Option<usize>,
    out_present: bool,
    conversion: Result<GeoArrowDataType, SchemaError>,
)
    ensures
        query_start(schema, out_present).agrees_with(m),
        query_start(schema, out_present).remaining(m, conversion) == schema_type(
            m,
            schema,
            out_present,
            conversion,
        ),
{
    if let Some(root) = schema {
        lemma_start(m, root);
    }
}

/// The query asks for exactly the next read, then for the conversion once
/// the reads are over and passed, then reports its result.
pub proof fn lemma_query_request(
    m: SchemaMemory,
    q: QueryState,
    conversion: Result<GeoArrowDataType, SchemaError>,
)
    requires
        q.agrees_with(m),
    ensures
        match q.request() {
            QueryRequest::Read(read) => q.remaining(m, conversion).0.len() > 0 && q.remaining(
                m,
                conversion,
            ).0[0] == read,
            QueryRequest::Convert(root) => q.remaining(m, conversion).0.len() == 0 && q
                == QueryState::Converting(root)
                && q.convert(conversion) == QueryState::Done(q.remaining(m, conversion).1),
            QueryRequest::Done(result) => q.remaining(m, conversion).0.len() == 0 && result
                == q.remaining(m, conversion).1,
        },
{
    if let QueryState::Walking(_, w) = q {
        lemma_request(m, w);
    }
}

/// Answering a read moves the query past exactly that read; its result stays.
pub proof fn lemma_query_advance(
    m: SchemaMemory,
    q: QueryState,
    reply: SchemaReply,
    conversion: Result<GeoArrowDataType, SchemaError>,
)
    requires
        q.agrees_with(m),
        q.request() matches QueryRequest::Read(read) && answers(
            m,
            WalkRequest::Read(read),
            reply,
        ),
    ensures
        q.advance(reply).agrees_with(m),
        q.advance(reply).remaining(m, conversion) == (
            q.remaining(m, conversion).0.drop_first(),
            q.remaining(m, conversion).1,
        ),
{
    if let QueryState::Walking(_, w) = q {
        lemma_advance(m, w, reply);
    }
}

/// A type is written only when both pointers are non-null, the schema tree
/// passes every check and the conversion succeeds; the type written is the
/// constant whose value is the code of the converted data type. Any other
/// outcome writes nothing and reports an error.
pub proof fn lemma_type_written_only_after_checks(
    m: SchemaMemory,
    schema: Option<usize>,
    out_present: bool,
    conversion: Result<GeoArrowDataType, SchemaError>,
)
    ensures
        schema_type(m, schema, out_present, conversion).1 is Ok <==> {
            &&& schema is Some
            &&& out_present
            &&& m.validate(schema->0).1 is Ok
            &&& conversion is Ok
        },
        schema_type(m, schema, out_present, conversion).1 matches Ok(t) ==> t.spec_value()
            == conversion->Ok_0.spec_code(),
{
    if let Ok(d) = conversion {
        lemma_code_names_a_declared_constant(d);
    }
}

impl SchemaTypeQuery {
    /// A query on the schema `schema` (`None` for a null pointer), writing
    /// through a pointer that is non-null when `out_present`.
    pub fn new(schema: Option<usize>, out_present: bool) -> (q: SchemaTypeQuery)
        ensures
            q@ == query_start(schema, out_present),
    {
        match schema {
            None => SchemaTypeQuery::Done(Err(SchemaError::SchemaNull)),
            Some(root) => if !out_present {
                SchemaTypeQuery::Done(Err(SchemaError::OutTypeNull))
            } else {
                SchemaTypeQuery::Walking(root, SchemaWalk::new(root))
            },
        }
    }

    /// What the query asks for next.
    pub fn request(&self) -> (r: QueryRequest)
        ensures
            r == self@.request(),
    {
        match self {
            SchemaTypeQuery::Walking(root, w) => match w.request() {
                WalkRequest::Read(r) => QueryRequest::Read(r),
                WalkRequest::Done(_) => QueryRequest::Convert(*root),
            },
            SchemaTypeQuery::Converting(root) => QueryRequest::Convert(*root),
            SchemaTypeQuery::Done(Ok(t)) => QueryRequest::Done(Ok(*t)),
            SchemaTypeQuery::Done(Err(e)) => QueryRequest::Done(Err(e.duplicate())),
        }
    }

    /// Take the reader's answer to a read. Anything else than an answer to
    /// a read leaves the query as it is.
    pub fn advance(&mut self, reply: SchemaReply)
        ensures
            final(self)@ == old(self)@.advance(reply),
            forall|m: SchemaMemory, conversion: Result<GeoArrowDataType, SchemaError>|
                #![trigger old(self)@.remaining(m, conversion)]
                old(self)@.agrees_with(m) && (old(self)@.request() matches QueryRequest::Read(read)
                    && answers(m, WalkRequest::Read(read), reply)) ==> {
                    &&& final(self)@.agrees_with(m)
                    &&& final(self)@.remaining(m, conversion) == (
                        old(self)@.remaining(m, conversion).0.drop_first(),
                        old(self)@.remaining(m, conversion).1,
                    )
                },
    {
        proof {
            assert forall|m: SchemaMemory, conversion: Result<GeoArrowDataType, SchemaError>|
                #![trigger old(self)@.remaining(m, conversion)]
                old(self)@.agrees_with(m) && (old(self)@.request() matches QueryRequest::Read(read)
                    && answers(m, WalkRequest::Read(read), reply)) implies {
                &&& old(self)@.advance(reply).agrees_with(m)
                &&& old(self)@.advance(reply).remaining(m, conversion) == (
                    old(self)@.remaining(m, conversion).0.drop_first(),
                    old(self)@.remaining(m, conversion).1,
                )
            } by {
                lemma_query_advance(m, old(self)@, reply, conversion);
            }
        }
        let mut current = SchemaTypeQuery::Converting(0);
        std::mem::swap(&mut current, self);
        *self = match current {
            SchemaTypeQuery::Walking(root, mut w) => {
                w.advance(reply);
                match w.outcome() {
                    None => SchemaTypeQuery::Walking(root, w),
                    Some(Ok(_)) => SchemaTypeQuery::Converting(root),
                    Some(Err(e)) => SchemaTypeQuery::Done(Err(e)),
                }
            },
            other => other,
        };
    }

    /// Take what the conversion gave back: the geoarrow data type of the
    /// field, or why arrow-rs or geoarrow-rs refused it.
    pub fn convert(&mut self, conversion: Result<GeoArrowDataType, SchemaError>)
        ensures
            final(self)@ == old(self)@.convert(conversion),
    {
        if let SchemaTypeQuery::Converting(_) = self {
            *self = SchemaTypeQuery::Done(
                match conversion {
                    Ok(t) => Ok(geoarrow_type(&t)),
                    Err(e) => Err(e),
                },
            );
        }
    }
}

} // verus!
