use vstd::prelude::*;
use crate::error::{Error, errno_of, from_code};

verus! {

/// What an allocation by `func` that answered `(code, handle)` gives: the
/// handle where the code is not negative, the error it reports otherwise.
pub open spec fn allocated(func: &'static str, out: (i32, usize)) -> Result<usize, Error> {
    if out.0 < 0 {
        Err(Error { func, errno: errno_of(out.0 as int) })
    } else {
        Ok(out.1)
    }
}

/// What filling an allocated object `handle` by `func` with return code `code`
/// gives: the object where the code is not negative, the error it reports
/// otherwise.
pub open spec fn filled(func: &'static str, handle: usize, code: i32) -> Result<usize, Error> {
    if code < 0 {
        Err(Error { func, errno: errno_of(code as int) })
    } else {
        Ok(handle)
    }
}

/// An allocation or open that answers a non-negative code gives exactly the
/// address that ALSA wrote, and one that answers a negative code gives an
/// error naming the C function, with the code negated as `errno`.
pub proof fn lemma_allocated_keeps_address(func: &'static str, code: i32, handle: usize)
    ensures
        code >= 0 ==> allocated(func, (code, handle)) == Ok::<usize, Error>(handle),
        code < 0 ==> allocated(func, (code, handle)) is Err,
        code < 0 && code > i32::MIN ==> allocated(func, (code, handle)) == Err::<usize, Error>(
            Error { func, errno: (-code) as i32 },
        ),
{
}

/// A query that answers a non-negative code hands back the very object it
/// filled; one that answers a negative code gives an error naming the query,
/// with the code negated as `errno`.
pub proof fn lemma_filled_keeps_object(func: &'static str, handle: usize, code: i32)
    ensures
        code >= 0 ==> filled(func, handle, code) == Ok::<usize, Error>(handle),
        code < 0 && code > i32::MIN ==> filled(func, handle, code) == Err::<usize, Error>(
            Error { func, errno: (-code) as i32 },
        ),
{
}

/// Allocates a C object and fills it by a query, releasing it where the query
/// fails. `alloc` performs the allocation `alloc_func` and answers its return
/// code and the address it wrote; `query` performs `query_func` on the new
/// object, and is called only where the allocation succeeded; `free` releases
/// the object, and is called only where the query failed.
pub(crate) fn alloc_then_query<A, Q, D>(
    alloc_func: &'static str,
    query_func: &'static str,
    alloc: A,
    query: Q,
    free: D,
) -> (r: Result<usize, Error>) where
    A: FnOnce() -> (i32, usize),
    Q: FnOnce(usize) -> i32,
    D: FnOnce(usize),

    requires
        alloc.requires(()),
        forall|o: (i32, usize)| #[trigger] alloc.ensures((), o) && o.0 >= 0 ==> query.requires((o.1,)),
        forall|h: usize, c: i32| #[trigger] query.ensures((h,), c) && c < 0 ==> free.requires((h,)),
    ensures
        exists|out: (i32, usize)|
            {
                &&& alloc.ensures((), out)
                &&& out.0 < 0 ==> r == allocated(alloc_func, out)
                &&& out.0 >= 0 ==> exists|code: i32|
                    {
                        &&& query.ensures((out.1,), code)
                        &&& r == filled(query_func, out.1, code)
                        &&& code < 0 ==> free.ensures((out.1,), ())
                    }
            },
{
    let out = alloc();
    match from_code(alloc_func, out.0) {
        Err(e) => {
            assert(Err::<usize, Error>(e) == allocated(alloc_func, out));
            Err(e)
        },
        Ok(_) => {
            let code = query(out.1);
            match from_code(query_func, code) {
                Ok(_) => {
                    assert(Ok::<usize, Error>(out.1) == filled(query_func, out.1, code));
                    Ok(out.1)
                },
                Err(e) => {
                    free(out.1);
                    assert(Err::<usize, Error>(e) == filled(query_func, out.1, code));
                    Err(e)
                },
            }
        },
    }
}

} // verus!
