//! The kinds of spans that the runtime records, and the recorded span itself.
use vstd::prelude::*;

verus! {

/// A task being polled by a worker.
#[derive(Debug, Default, Clone, PartialEq, Eq, Hash)]
pub struct RunTask {
    pub id: Option<u64>,
    pub name: Option<String>,
    pub file: Option<&'static str>,
    pub line: Option<u32>,
    pub col: Option<u32>,
    pub backtrace: Option<String>,
}

#[derive(Debug, Clone, PartialEq, Eq, Hash)]
pub struct RuntimeStart {}

#[derive(Debug, Clone, PartialEq, Eq, Hash)]
pub struct RuntimeTerminate {}

#[derive(Debug, Clone, PartialEq, Eq, Hash)]
pub struct RuntimePark {}

/// Names the thread whose spans follow; becomes a Perfetto thread track.
#[derive(Debug, Clone, PartialEq, Eq, Hash)]
pub struct ThreadDiscriptor {
    pub thread_name: String,
}

/// Describes the traced process; becomes a Perfetto process track.
#[derive(Debug, Clone, PartialEq, Eq, Hash)]
pub struct ProcessDiscriptor {}

#[derive(Debug, Clone, PartialEq, Eq, Hash)]
pub enum Type {
    RunTask(RunTask),
    RuntimeStart(RuntimeStart),
    RuntimeTerminate(RuntimeTerminate),
    RuntimePark(RuntimePark),
    // perfetto specific
    ThreadDiscriptor(ThreadDiscriptor),
    ProcessDiscriptor(ProcessDiscriptor),
}

/// The name under which a span of type `t` is shown.
pub open spec fn kind_name(t: Type) -> Seq<char> {
    match t {
        Type::RunTask(_) => "run_task"@,
        Type::RuntimeStart(_) => "runtime_start"@,
        Type::RuntimeTerminate(_) => "runtime_terminate"@,
        Type::RuntimePark(_) => "runtime_park"@,
        Type::ThreadDiscriptor(_) => "thread_discriptor"@,
        Type::ProcessDiscriptor(_) => "process_discriptor"@,
    }
}

/// Spans of different types are shown under different names.
pub proof fn law_type_names_differ(t: Type, u: Type)
    ensures
        kind_name(t) == kind_name(u) ==> {
            &&& (t is RunTask <==> u is RunTask)
            &&& (t is RuntimeStart <==> u is RuntimeStart)
            &&& (t is RuntimeTerminate <==> u is RuntimeTerminate)
            &&& (t is RuntimePark <==> u is RuntimePark)
            &&& (t is ThreadDiscriptor <==> u is ThreadDiscriptor)
            &&& (t is ProcessDiscriptor <==> u is ProcessDiscriptor)
        },
{
    reveal_strlit("run_task");
    reveal_strlit("runtime_start");
    reveal_strlit("runtime_terminate");
    reveal_strlit("runtime_park");
    reveal_strlit("thread_discriptor");
    reveal_strlit("process_discriptor");
    if kind_name(t) == kind_name(u) {
        assert(kind_name(t).len() == kind_name(u).len());
        assert(kind_name(t)[0] == kind_name(u)[0]);
        assert(kind_name(t)[8] == kind_name(u)[8]);
    }
}

/// Whether `t` describes a track (a thread or the process) rather than a timed slice.
pub open spec fn is_descriptor(t: Type) -> bool {
    t is ThreadDiscriptor || t is ProcessDiscriptor
}

impl Type {
    /// Return `str` representation of this type.
    pub fn type_name_str(&self) -> (res: &'static str)
        ensures
            res@ == kind_name(*self),
    {
        match self {
            Type::RunTask(_) => "run_task",
            Type::RuntimeStart(_) => "runtime_start",
            Type::RuntimeTerminate(_) => "runtime_terminate",
            Type::RuntimePark(_) => "runtime_park",
            Type::ThreadDiscriptor(_) => "thread_discriptor",
            Type::ProcessDiscriptor(_) => "process_discriptor",
        }
    }

    /// Return `String` representation of this type.
    pub fn type_name_string(&self) -> (res: String)
        ensures
            res@ == kind_name(*self),
    {
        self.type_name_str().to_owned()
    }

    /// Whether this type describes a track rather than a timed slice.
    pub fn is_descriptor(&self) -> (res: bool)
        ensures
            res == is_descriptor(*self),
    {
        match self {
            Type::ThreadDiscriptor(_) | Type::ProcessDiscriptor(_) => true,
            _ => false,
        }
    }
}

/// A recorded span. `start` and `end` are nanoseconds since the Unix epoch;
/// descriptors carry zero for both.
#[derive(Debug, Clone, PartialEq, Eq, Hash)]
pub struct RawSpan {
    pub typ: Type,
    pub thread_id: u64,
    pub start: u64,
    pub end: u64,
}

fn copy_string_option(s: &Option<String>) -> (res: Option<String>)
    ensures
        res == *s,
{
    match s {
        Some(v) => Some(v.clone()),
        None => None,
    }
}

impl RawSpan {
    /// An identical copy of this span.
    pub fn copy(&self) -> (res: RawSpan)
        ensures
            res == *self,
    {
        let typ = match &self.typ {
            Type::RunTask(t) => Type::RunTask(
                RunTask {
                    id: t.id,
                    name: copy_string_option(&t.name),
                    file: t.file,
                    line: t.line,
                    col: t.col,
                    backtrace: copy_string_option(&t.backtrace),
                },
            ),
            Type::RuntimeStart(_) => Type::RuntimeStart(RuntimeStart {  }),
            Type::RuntimeTerminate(_) => Type::RuntimeTerminate(RuntimeTerminate {  }),
            Type::RuntimePark(_) => Type::RuntimePark(RuntimePark {  }),
            Type::ThreadDiscriptor(d) => Type::ThreadDiscriptor(
                ThreadDiscriptor { thread_name: d.thread_name.clone() },
            ),
            Type::ProcessDiscriptor(_) => Type::ProcessDiscriptor(ProcessDiscriptor {  }),
        };
        RawSpan { typ, thread_id: self.thread_id, start: self.start, end: self.end }
    }
}

} // verus!
