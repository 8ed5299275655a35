//! Statement preparation bookkeeping, positional parameter binding, and
//! output-column definition.
//!
//! A statement is classified at prepare time: text with `CREATE` within its
//! first ten characters must be prepared twice by the native layer (reusing
//! a single prepare for DDL is unsupported in this database family), and
//! text containing `SELECT` or `select` anywhere is treated as
//! result-producing — a known heuristic that can misfire on quoted literals.
//! Binds are 1-based, increment by one per call, and their buffers, sizes
//! and indicators are all retained for the statement's whole lifetime,
//! because the native call holds pointers into them during execution.
use vstd::prelude::*;
use vstd::string::*;

use crate::cursor::Cursor;
use crate::cursor::CursorState;
use crate::cursor::Field;
use crate::error::OciError;
use crate::types::ColumnDescriptor;
use crate::types::OciDataType;
use crate::types::SQLT_BFLOAT;
use crate::types::resolve_column_type;
use crate::types::spec_from_raw;
use crate::types::spec_resolve_column;
use crate::types::spec_to_raw;

verus! {

/// The keyword occurs in `s` starting at char index `i`.
pub open spec fn keyword_at(s: Seq<char>, kw: Seq<char>, i: int) -> bool {
    0 <= i && i + kw.len() <= s.len() && s.subrange(i, i + kw.len() as int) == kw
}

/// The keyword occurs somewhere in `s`.
pub open spec fn contains_keyword(s: Seq<char>, kw: Seq<char>) -> bool {
    exists|i: int| keyword_at(s, kw, i)
}

/// Result-producing classification: `SELECT` or `select` occurs anywhere.
pub open spec fn spec_is_select(s: Seq<char>) -> bool {
    contains_keyword(s, "SELECT"@) || contains_keyword(s, "select"@)
}

/// DDL re-prepare rule: `CREATE` starts within the first ten characters.
pub open spec fn spec_needs_reprepare(s: Seq<char>) -> bool {
    exists|i: int| i < 10 && keyword_at(s, "CREATE"@, i)
}

/// How many native prepare calls this SQL text takes: two for DDL that
/// matches the re-prepare rule, one for everything else.
pub open spec fn spec_prepare_calls(s: Seq<char>) -> int {
    if spec_needs_reprepare(s) {
        2
    } else {
        1
    }
}

/// The native type code a bind is registered with: a 4-byte float value is
/// bound with the narrower native single-float code; everything else uses
/// its tag's own code.
pub open spec fn spec_bind_code(tpe: OciDataType, size: int) -> u32 {
    if size == 4 && tpe == OciDataType::Float {
        SQLT_BFLOAT
    } else {
        spec_to_raw(tpe)
    }
}

/// The bytes a bind retains: the value's own bytes, or none for SQL NULL.
pub open spec fn spec_bind_bytes(value: Option<Vec<u8>>) -> Seq<u8> {
    match value {
        Some(v) => v@,
        None => Seq::empty(),
    }
}

/// True when the keyword matches at char index `i`, by comparing characters.
fn keyword_at_exec(s: &str, kw: &str, i: usize) -> (r: bool)
    requires
        i + kw@.len() <= s@.len(),
        s@.len() <= usize::MAX,
    ensures
        r == keyword_at(s@, kw@, i as int),
{
    let m = kw.unicode_len();
    let mut t: usize = 0;
    while t < m
        invariant
            t <= m,
            m == kw@.len(),
            i + m <= s@.len() <= usize::MAX,
            forall|u: int| 0 <= u < t ==> s@[i + u] == kw@[u],
        decreases m - t,
    {
        if s.get_char(i + t) != kw.get_char(t) {
            proof {
                assert(s@.subrange(i as int, i + m as int)[t as int] == s@[i + t]);
            }
            return false;
        }
        t = t + 1;
    }
    proof {
        assert(s@.subrange(i as int, i + m as int) =~= kw@);
    }
    true
}

/// True when the keyword occurs anywhere in `s`, by a linear scan.
fn contains_keyword_exec(s: &str, kw: &str) -> (r: bool)
    requires
        kw@.len() >= 1,
    ensures
        r == contains_keyword(s@, kw@),
{
    let n = s.unicode_len();
    let m = kw.unicode_len();
    if m > n {
        assert(forall|i: int| !keyword_at(s@, kw@, i));
        return false;
    }
    let mut i: usize = 0;
    while i <= n - m
        invariant
            1 <= m <= n,
            n == s@.len(),
            m == kw@.len(),
            i <= n - m + 1,
            forall|u: int| 0 <= u < i ==> !keyword_at(s@, kw@, u),
        decreases n - m + 1 - i,
    {
        if keyword_at_exec(s, kw, i) {
            assert(keyword_at(s@, kw@, i as int));
            return true;
        }
        i = i + 1;
    }
    assert(forall|u: int| !keyword_at(s@, kw@, u));
    false
}

/// True when the DDL re-prepare rule applies to this SQL text.
fn needs_reprepare(sql: &str) -> (r: bool)
    ensures
        r == spec_needs_reprepare(sql@),
{
    proof {
        reveal_strlit("CREATE");
    }
    let n = sql.unicode_len();
    let kw = "CREATE";
    let m = kw.unicode_len();
    if m > n {
        assert(forall|i: int| !(i < 10 && keyword_at(sql@, "CREATE"@, i)));
        return false;
    }
    let limit: usize = if n - m + 1 < 10 {
        n - m + 1
    } else {
        10
    };
    let mut i: usize = 0;
    while i < limit
        invariant
            kw@ == "CREATE"@,
            m == "CREATE"@.len(),
            1 <= m <= n,
            n == sql@.len(),
            limit <= n - m + 1,
            limit <= 10,
            (n - m + 1 < 10 ==> limit == n - m + 1),
            (n - m + 1 >= 10 ==> limit == 10),
            i <= limit,
            forall|u: int| 0 <= u < i ==> !keyword_at(sql@, "CREATE"@, u),
        decreases limit - i,
    {
        if keyword_at_exec(sql, kw, i) {
            assert(i < 10 && keyword_at(sql@, "CREATE"@, i as int));
            return true;
        }
        i = i + 1;
    }
    assert(forall|u: int| !(u < 10 && keyword_at(sql@, "CREATE"@, u)));
    false
}

/// Everything the native positional-bind call needs for one parameter, as
/// the verified bookkeeping decided it.
pub struct BindRequest {
    /// 1-based bind position; equals the statement's bind index.
    pub position: u32,
    /// The value's bytes, exactly as given; empty for SQL NULL.
    pub bytes: Vec<u8>,
    /// Byte length of the value; 0 for SQL NULL.
    pub size: i32,
    /// Indicator to register: -1 for SQL NULL, 0 otherwise.
    pub indicator: i16,
    /// Native type code to register the bind with.
    pub raw_type_code: u32,
    /// Character binds carry the connection's character-set id.
    pub attach_charset: bool,
}

/// Everything the native output-definition call needs for one column.
pub struct DefineRequest {
    /// 1-based column position.
    pub position: u32,
    /// Native type code the output buffer is registered with.
    pub raw_type_code: u32,
    /// Byte width of the output buffer.
    pub size: u32,
}

/// The verified bookkeeping of one prepared statement: its classification,
/// the monotonically increasing bind index, and the three parallel retained
/// sequences (bind buffers, sizes, null indicators) indexed by bind order.
/// The native statement handle lives with the foreign-call layer.
pub struct Statement {
    /// Result-producing classification decided at prepare time.
    pub is_select: bool,
    /// How many native prepare calls this statement's text takes (1 or 2).
    pub prepare_calls: u32,
    /// Monotonically increasing bind index; the last position handed out.
    pub bind_index: u32,
    /// Retained copy of every bound value's bytes, in bind order.
    pub buffers: Vec<Vec<u8>>,
    /// Retained byte sizes, in bind order.
    pub sizes: Vec<i32>,
    /// Retained null indicators, in bind order.
    pub indicators: Vec<i16>,
    /// Every position handed out so far, in call order.
    pub issued_positions: Ghost<Seq<u32>>,
}

impl Statement {
    /// The bookkeeping invariant: the three retained sequences and the
    /// issued positions move in lockstep with the bind index, and the
    /// positions handed out so far are exactly 1..index in call order.
    pub open spec fn wf(self) -> bool {
        &&& self.buffers@.len() == self.bind_index as int
        &&& self.sizes@.len() == self.bind_index as int
        &&& self.indicators@.len() == self.bind_index as int
        &&& self.issued_positions@.len() == self.bind_index as int
        &&& (forall|k: int|
            0 <= k < self.issued_positions@.len() ==> (#[trigger] self.issued_positions@[k]) as int
                == k + 1)
    }

    /// Prepares the bookkeeping for one SQL text: classifies it as
    /// result-producing, decides how many native prepare calls it takes,
    /// and starts the bind index at zero.
    pub fn prepare(sql: &str) -> (s: Statement)
        ensures
            s.wf(),
            s.bind_index == 0,
            s.buffers@.len() == 0,
            s.is_select == spec_is_select(sql@),
            s.prepare_calls as int == spec_prepare_calls(sql@),
    {
        proof {
            reveal_strlit("SELECT");
            reveal_strlit("select");
        }
        let is_select = contains_keyword_exec(sql, "SELECT") || contains_keyword_exec(
            sql,
            "select",
        );
        let prepare_calls: u32 = if needs_reprepare(sql) {
            2
        } else {
            1
        };
        Statement {
            is_select,
            prepare_calls,
            bind_index: 0,
            buffers: Vec::new(),
            sizes: Vec::new(),
            indicators: Vec::new(),
            issued_positions: Ghost(Seq::empty()),
        }
    }

    /// The iteration count the native execute call takes: 0 for a
    /// result-producing statement (rows are materialized by fetch), 1
    /// otherwise (apply immediately).
    pub fn run_iteration_count(&self) -> (r: u32)
        ensures
            r == if self.is_select {
                0u32
            } else {
                1u32
            },
    {
        if self.is_select {
            0
        } else {
            1
        }
    }

    /// Assigns the next positional parameter (increment-then-use, 1-based)
    /// and retains its buffer, size and indicator for the statement's whole
    /// lifetime. A present value is copied at its exact length with
    /// indicator 0; an absent value is a zero-length SQL NULL bind with
    /// indicator -1. A 4-byte float value is registered under the narrower
    /// native single-float code; character binds carry the character-set id.
    pub fn bind(&mut self, tpe: OciDataType, value: Option<Vec<u8>>) -> (r: BindRequest)
        requires
            old(self).wf(),
            old(self).bind_index < u32::MAX,
            (value matches Some(v) ==> v@.len() <= i32::MAX),
        ensures
            final(self).wf(),
            final(self).bind_index == old(self).bind_index + 1,
            final(self).is_select == old(self).is_select,
            final(self).prepare_calls == old(self).prepare_calls,
            r.position == final(self).bind_index,
            r.position as int == old(self).buffers@.len() + 1,
            r.bytes@ == spec_bind_bytes(value),
            r.size as int == spec_bind_bytes(value).len() as int,
            r.indicator == if value is Some {
                0i16
            } else {
                -1i16
            },
            r.raw_type_code == spec_bind_code(tpe, r.size as int),
            r.attach_charset == (tpe == OciDataType::Char),
            final(self).buffers@.len() == old(self).buffers@.len() + 1,
            (forall|k: int|
                0 <= k < old(self).buffers@.len() ==> final(self).buffers@[k] == old(
                    self,
                ).buffers@[k]),
            final(self).buffers@[old(self).buffers@.len() as int]@ == spec_bind_bytes(value),
            final(self).sizes@ == old(self).sizes@.push(r.size),
            final(self).indicators@ == old(self).indicators@.push(r.indicator),
            final(self).issued_positions@ == old(self).issued_positions@.push(r.position),
    {
        self.bind_index = self.bind_index + 1;
        let position = self.bind_index;
        let (bytes, size, indicator): (Vec<u8>, i32, i16) = match value {
            Some(v) => {
                let len = v.len() as i32;
                (v, len, 0)
            },
            None => (Vec::new(), 0, -1),
        };
        let raw_type_code = if size == 4 && tpe == OciDataType::Float {
            SQLT_BFLOAT
        } else {
            tpe.to_raw()
        };
        let attach_charset = tpe == OciDataType::Char;
        let retained = bytes.clone();
        proof {
            assert(retained@ =~= bytes@);
        }
        self.buffers.push(retained);
        self.sizes.push(size);
        self.indicators.push(indicator);
        proof {
            self.issued_positions@ = self.issued_positions@.push(position);
        }
        BindRequest { position, bytes, size, indicator, raw_type_code, attach_charset }
    }

    /// Allocates a zero-filled output buffer of the resolved width, a fresh
    /// indicator cell starting at SQL NULL, and appends the column's field;
    /// hands back what the native output-definition call needs. A native
    /// code outside the supported tag set aborts with the unsupported-type
    /// error before anything is registered or appended.
    pub fn define(
        &self,
        fields: &mut Vec<Field>,
        tpe: u32,
        tpe_size: u32,
        col_number: usize,
    ) -> (r: Result<DefineRequest, OciError>)
        requires
            col_number <= u32::MAX,
        ensures
            match r {
                Ok(req) => {
                    &&& spec_from_raw(tpe) is Some
                    &&& final(fields)@.len() == old(fields)@.len() + 1
                    &&& (forall|k: int|
                        0 <= k < old(fields)@.len() ==> final(fields)@[k] == old(fields)@[k])
                    &&& final(fields)@.last().buffer@.len() == tpe_size as int
                    &&& (forall|k: int|
                        0 <= k < tpe_size as int ==> final(fields)@.last().buffer@[k] == 0u8)
                    &&& final(fields)@.last().indicator == -1i16
                    &&& Some(final(fields)@.last().typ) == spec_from_raw(tpe)
                    &&& req.position == col_number as u32
                    &&& req.raw_type_code == tpe
                    &&& req.size == tpe_size
                },
                Err(e) => {
                    &&& spec_from_raw(tpe) is None
                    &&& e == OciError::UnsupportedType(tpe)
                    &&& *final(fields) == *old(fields)
                },
            },
    {
        let typ = match OciDataType::from_raw(tpe) {
            Some(t) => t,
            None => {
                return Err(OciError::UnsupportedType(tpe));
            },
        };
        let buffer = zero_buffer(tpe_size as usize);
        fields.push(Field::new(buffer, -1, typ));
        Ok(DefineRequest { position: col_number as u32, raw_type_code: tpe, size: tpe_size })
    }
}

/// What defining column `col` (0-based) of a resolved descriptor must
/// produce: the request carries the 1-based position, the resolved code and
/// width, and the field starts as a zero-filled buffer of that width with a
/// SQL NULL indicator and the code's type tag.
pub open spec fn spec_defined_column(
    d: ColumnDescriptor,
    f: Field,
    req: DefineRequest,
    col: int,
) -> bool {
    match spec_resolve_column(d) {
        Some(resolved) => {
            &&& req.position as int == col + 1
            &&& req.raw_type_code == resolved.0
            &&& req.size == resolved.1
            &&& f.buffer@.len() == resolved.1 as int
            &&& (forall|k: int| 0 <= k < f.buffer@.len() ==> f.buffer@[k] == 0u8)
            &&& f.indicator == -1i16
            &&& Some(f.typ) == spec_from_raw(resolved.0)
        },
        None => false,
    }
}

/// How column definition fails: at the first descriptor outside the
/// resolution table, with the unsupported-type error naming its code.
pub open spec fn spec_define_failure(ds: Seq<ColumnDescriptor>, e: OciError) -> bool {
    exists|i: int|
        {
            &&& 0 <= i < ds.len()
            &&& spec_resolve_column(#[trigger] ds[i]) is None
            &&& e == OciError::UnsupportedType(ds[i].data_type)
            &&& (forall|j: int| 0 <= j < i ==> spec_resolve_column(#[trigger] ds[j]) is Some)
        }
}

impl Statement {
    /// Resolves and defines every result column in order, 1-based, from the
    /// native descriptors the foreign-call layer read: each column gets a
    /// zero-filled field of its resolved width and a definition request for
    /// the native layer. The first descriptor outside the resolution table
    /// aborts the whole definition with the unsupported-type error.
    pub fn define_all_columns(&self, descriptors: &Vec<ColumnDescriptor>) -> (r: Result<
        (Vec<Field>, Vec<DefineRequest>),
        OciError,
    >)
        requires
            descriptors@.len() <= u32::MAX,
        ensures
            match r {
                Ok(out) => {
                    &&& out.0@.len() == descriptors@.len()
                    &&& out.1@.len() == descriptors@.len()
                    &&& (forall|i: int|
                        0 <= i < descriptors@.len() ==> spec_defined_column(
                            descriptors@[i],
                            #[trigger] out.0@[i],
                            out.1@[i],
                            i,
                        ))
                },
                Err(e) => spec_define_failure(descriptors@, e),
            },
    {
        let n = descriptors.len();
        let mut fields: Vec<Field> = Vec::new();
        let mut requests: Vec<DefineRequest> = Vec::new();
        let mut i: usize = 0;
        while i < n
            invariant
                n == descriptors@.len() <= u32::MAX,
                i <= n,
                fields@.len() == i,
                requests@.len() == i,
                forall|k: int|
                    0 <= k < i ==> spec_defined_column(
                        descriptors@[k],
                        #[trigger] fields@[k],
                        requests@[k],
                        k,
                    ),
                forall|k: int| 0 <= k < i ==> spec_resolve_column(#[trigger] descriptors@[k]) is Some,
            decreases n - i,
        {
            let d = descriptors[i];
            let (code, width) = match resolve_column_type(d) {
                Ok(cw) => cw,
                Err(e) => {
                    return Err(e);
                },
            };
            let req = match self.define(&mut fields, code, width, i + 1) {
                Ok(req) => req,
                Err(e) => {
                    proof {
                        crate::types::lemma_resolved_code_supported(d);
                    }
                    return Err(e);
                },
            };
            requests.push(req);
            i = i + 1;
        }
        Ok((fields, requests))
    }

    /// Composes column definition with cursor construction: from the
    /// descriptors of an executed result-producing statement's columns, a
    /// fresh active cursor over the defined fields and the definition
    /// requests the native layer must register. The execute call itself and
    /// the descriptor reads are the foreign-call layer's.
    pub fn run_with_cursor(&self, descriptors: &Vec<ColumnDescriptor>) -> (r: Result<
        (Cursor, Vec<DefineRequest>),
        OciError,
    >)
        requires
            descriptors@.len() <= u32::MAX,
        ensures
            match r {
                Ok(out) => {
                    &&& out.0.state == CursorState::Active
                    &&& out.0.current_row == 0
                    &&& out.0.fields@.len() == descriptors@.len()
                    &&& out.1@.len() == descriptors@.len()
                    &&& (forall|i: int|
                        0 <= i < descriptors@.len() ==> spec_defined_column(
                            descriptors@[i],
                            #[trigger] out.0.fields@[i],
                            out.1@[i],
                            i,
                        ))
                },
                Err(e) => spec_define_failure(descriptors@, e),
            },
    {
        match self.define_all_columns(descriptors) {
            Ok((fields, requests)) => Ok((Cursor::new(fields), requests)),
            Err(e) => Err(e),
        }
    }
}

/// Bind positions are handed out as exactly 1..N in call order: the k-th
/// recorded bind of any well-formed statement carries position k+1.
pub proof fn lemma_bind_positions_sequential(s: Statement)
    requires
        s.wf(),
    ensures
        s.issued_positions@.len() == s.bind_index as int,
        forall|k: int|
            0 <= k < s.issued_positions@.len() ==> (#[trigger] s.issued_positions@[k]) as int == k
                + 1,
{
}

/// A zero-filled buffer of the asked-for byte width.
fn zero_buffer(n: usize) -> (v: Vec<u8>)
    ensures
        v@.len() == n,
        forall|k: int| 0 <= k < n ==> v@[k] == 0u8,
{
    let mut v: Vec<u8> = Vec::new();
    let mut i: usize = 0;
    while i < n
        invariant
            i <= n,
            v@.len() == i,
            forall|k: int| 0 <= k < i ==> v@[k] == 0u8,
        decreases n - i,
    {
        v.push(0);
        i = i + 1;
    }
    v
}

} // verus!
