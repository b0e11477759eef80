//! The attribute that wraps a function's body between two printed lines.
use vstd::prelude::*;
use vstd::string::*;
use crate::model::{FnModel, FnView, SourceError};
use crate::outside::{parse_item_fn, syn_item_fn};

verus! {

/// The expansion of `#[my_attribute_fn]`: the function's signature rebuilt from
/// its parts (its attributes are dropped, its generic parameters are always
/// written in angle brackets) and a body that prints `begin`, runs the function's
/// body as a closure, prints `after` and returns the closure's result.
pub open spec fn wrapped_fn_text(f: FnView) -> Seq<char> {
    f.vis + " "@ + f.constness + " "@ + f.unsafety + " "@ + f.asyncness + " "@ + f.abi
        + " fn "@ + f.ident + "<"@ + f.gen_params + ">("@ + f.params + ") "@ + f.output
        + " "@ + f.where_clause
        + " { println!(\"begin\"); let r = || "@ + f.block
        + "; let r = r(); println!(\"after\"); r }"@
}

/// `#[my_attribute_fn]` on the function `f`.
pub fn my_attribute_fn(f: &FnModel) -> (res: String)
    ensures
        res@ == wrapped_fn_text(f@),
{
    let mut s = String::new();
    s.append(f.vis.as_str());
    s.append(" ");
    s.append(f.constness.as_str());
    s.append(" ");
    s.append(f.unsafety.as_str());
    s.append(" ");
    s.append(f.asyncness.as_str());
    s.append(" ");
    s.append(f.abi.as_str());
    s.append(" fn ");
    s.append(f.ident.as_str());
    s.append("<");
    s.append(f.gen_params.as_str());
    s.append(">(");
    s.append(f.params.as_str());
    s.append(") ");
    s.append(f.output.as_str());
    s.append(" ");
    s.append(f.where_clause.as_str());
    s.append(" { println!(\"begin\"); let r = || ");
    s.append(f.block.as_str());
    s.append("; let r = r(); println!(\"after\"); r }");
    s
}


/// The signature's qualifiers up to the name, in the order they are written:
/// visibility, `const`, `unsafe`, `async`, ABI, then `fn` and the name.
pub open spec fn fn_header(f: FnView) -> Seq<char> {
    let sp = " "@;
    f.vis + sp + f.constness + sp + f.unsafety + sp + f.asyncness + sp + f.abi + " fn "@ + f.ident
}

/// The wrapped function keeps every qualifier of the input: its text begins
/// with the input's visibility, constness, unsafety, asyncness and ABI in that
/// order, then `fn` and the name; it ends with the input's body run as a
/// closure; and it holds every part of the signature once, with 84 characters
/// of its own.
pub proof fn lemma_wrapped_fn_keeps_signature(f: FnView)
    ensures
        ({
            let t = wrapped_fn_text(f);
            let tail = f.block + "; let r = r(); println!(\"after\"); r }"@;
            &&& t.take(fn_header(f).len() as int) == fn_header(f)
            &&& t.skip(t.len() - tail.len()) == tail
            &&& t.len() == f.vis.len() + f.constness.len() + f.unsafety.len() + f.asyncness.len()
                + f.abi.len() + f.ident.len() + f.gen_params.len() + f.params.len() + f.output.len()
                + f.where_clause.len() + f.block.len() + 84
        }),
{
    reveal_strlit(" ");
    reveal_strlit(" fn ");
    reveal_strlit("<");
    reveal_strlit(">(");
    reveal_strlit(") ");
    reveal_strlit(" { println!(\"begin\"); let r = || ");
    reveal_strlit("; let r = r(); println!(\"after\"); r }");
    let t = wrapped_fn_text(f);
    let head = fn_header(f);
    let mid = "<"@ + f.gen_params + ">("@ + f.params + ") "@ + f.output + " "@ + f.where_clause
        + " { println!(\"begin\"); let r = || "@;
    let tail = f.block + "; let r = r(); println!(\"after\"); r }"@;
    assert(t =~= head + mid + tail);
    assert((head + mid + tail).take(head.len() as int) =~= head);
    assert((head + mid + tail).skip(t.len() - tail.len()) =~= tail);
}

/// An `async` input gives an `async` output: the wrapping of `f` is the
/// wrapping of the same function without `async`, with `f`'s asyncness put
/// back in its place after the visibility, constness and unsafety.
pub proof fn lemma_wrapped_fn_keeps_asyncness(f: FnView)
    ensures
        ({
            let g = FnView { asyncness: Seq::empty(), ..f };
            let p = (f.vis.len() + f.constness.len() + f.unsafety.len() + 3) as int;
            wrapped_fn_text(f) == wrapped_fn_text(g).take(p) + f.asyncness + wrapped_fn_text(g).skip(p)
        }),
{
    reveal_strlit(" ");
    let g = FnView { asyncness: Seq::empty(), ..f };
    let pre = f.vis + " "@ + f.constness + " "@ + f.unsafety + " "@;
    let post = " "@ + f.abi + " fn "@ + f.ident + "<"@ + f.gen_params + ">("@ + f.params + ") "@
        + f.output + " "@ + f.where_clause + " { println!(\"begin\"); let r = || "@ + f.block
        + "; let r = r(); println!(\"after\"); r }"@;
    assert(wrapped_fn_text(f) =~= pre + f.asyncness + post);
    assert(wrapped_fn_text(g) =~= pre + post);
    assert((pre + post).take(pre.len() as int) =~= pre);
    assert((pre + post).skip(pre.len() as int) =~= post);
}

/// `#[my_attribute_fn]` on the item written in `source`: the function is read
/// with `syn`, then wrapped as [`my_attribute_fn`] does.
pub fn my_attribute_fn_source(source: &str) -> (res: Result<String, SourceError>)
    ensures
        match syn_item_fn(source@) {
            Some(v) => res matches Ok(t) && t@ == wrapped_fn_text(v),
            None => res matches Err(SourceError::Syntax(_)),
        },
{
    match parse_item_fn(source) {
        Ok(f) => Ok(my_attribute_fn(&f)),
        Err(msg) => Err(SourceError::Syntax(msg)),
    }
}

} // verus!
