//! The node-information result: an optional alias, public key and color,
//! plus the ordered list of capability identifiers the provider reports.

use vstd::prelude::*;

use crate::error::{Error, ErrorView};
use crate::method::{spec_method_of, GetInfoMethod, MethodView};
use crate::value::{get_value_by_key, read_optional_string, spec_lookup, spec_opt_string, DynValue};

verus! {

/// The connected node, as far as the provider describes it. Every field is
/// independently optional: the provider may omit any of them.
#[derive(Debug, Clone, PartialEq, Eq)]
pub struct GetInfoNode {
    /// The node's alias.
    pub alias: Option<String>,
    /// The node's hex-encoded public key.
    pub pubkey: Option<String>,
    /// The node's color string.
    pub color: Option<String>,
}

/// The mathematical shape of a [`GetInfoNode`].
pub ghost struct GetInfoNodeView {
    pub alias: Option<Seq<char>>,
    pub pubkey: Option<Seq<char>>,
    pub color: Option<Seq<char>>,
}

impl View for GetInfoNode {
    type V = GetInfoNodeView;

    open spec fn view(&self) -> GetInfoNodeView {
        GetInfoNodeView {
            alias: self.alias.deep_view(),
            pubkey: self.pubkey.deep_view(),
            color: self.color.deep_view(),
        }
    }
}

/// The result of an information query: the node, and the capability
/// identifiers the provider claims to support, in the provider's order.
#[derive(Debug, Clone, PartialEq, Eq)]
pub struct GetInfoResponse {
    /// The connected node.
    pub node: GetInfoNode,
    /// The supported methods, in the reported order, duplicates kept.
    pub methods: Vec<GetInfoMethod>,
}

/// The mathematical shape of a [`GetInfoResponse`].
pub ghost struct GetInfoResponseView {
    pub node: GetInfoNodeView,
    pub methods: Seq<MethodView>,
}

impl View for GetInfoResponse {
    type V = GetInfoResponseView;

    open spec fn view(&self) -> GetInfoResponseView {
        GetInfoResponseView { node: self.node@, methods: self.methods.deep_view() }
    }
}

/// How the reported methods list decodes: the string elements, in order,
/// each parsed as a capability identifier; elements of any other type are
/// skipped rather than failing the response.
pub open spec fn spec_methods_list(items: Seq<DynValue>) -> Seq<MethodView>
    decreases items.len(),
{
    if items.len() == 0 {
        Seq::empty()
    } else {
        spec_methods_list(items.drop_last()) + (match items.last() {
            DynValue::Str(s) => seq![spec_method_of(s@)],
            _ => Seq::empty(),
        })
    }
}

/// Law: decoding the methods array keeps exactly its string elements, in
/// their original relative order, each parsed as a capability identifier;
/// every non-string element is dropped. Stated against `Seq::filter` and
/// `Seq::map_values` for any pair of functions that test for a string
/// element and parse one.
pub proof fn lemma_methods_preserve_order(
    items: Seq<DynValue>,
    pred: spec_fn(DynValue) -> bool,
    f: spec_fn(DynValue) -> MethodView,
)
    requires
        forall|v: DynValue| #[trigger] pred(v) <==> v is Str,
        forall|v: DynValue| v is Str ==> #[trigger] f(v) == spec_method_of(v->Str_0@),
    ensures
        spec_methods_list(items) == items.filter(pred).map_values(f),
    decreases items.len(),
{
    reveal(Seq::filter);
    if items.len() == 0 {
        assert(items.filter(pred).map_values(f) =~= Seq::<MethodView>::empty());
    } else {
        lemma_methods_preserve_order(items.drop_last(), pred, f);
        let rest = items.drop_last().filter(pred);
        if pred(items.last()) {
            assert(items.filter(pred) == rest.push(items.last()));
            assert(rest.push(items.last()).map_values(f) =~= rest.map_values(f) + seq![
                f(items.last()),
            ]);
            assert(spec_methods_list(items) =~= items.filter(pred).map_values(f));
        } else {
            assert(items.filter(pred) == rest);
            assert(spec_methods_list(items) =~= items.filter(pred).map_values(f));
        }
    }
}

/// How a dynamic value decodes as an information result: an object with a
/// required object property `node` (whose `alias`, `pubkey` and `color` are
/// read permissively) and a required array property `methods`.
pub open spec fn spec_decode_get_info(v: DynValue) -> Result<GetInfoResponseView, ErrorView> {
    match v {
        DynValue::Obj(fields) => match spec_lookup(fields@, "node"@) {
            None => Err(ErrorView::ObjectKeyNotFound("node"@)),
            Some(nv) => if !(nv is Obj) {
                Err(ErrorView::SomethingGoneWrong)
            } else {
                match spec_lookup(fields@, "methods"@) {
                    None => Err(ErrorView::ObjectKeyNotFound("methods"@)),
                    Some(mv) => if !(mv is List) {
                        Err(ErrorView::TypeMismatch("expected an array [methods]"@))
                    } else {
                        Ok(
                            GetInfoResponseView {
                                node: GetInfoNodeView {
                                    alias: spec_opt_string(nv->Obj_0@, "alias"@),
                                    pubkey: spec_opt_string(nv->Obj_0@, "pubkey"@),
                                    color: spec_opt_string(nv->Obj_0@, "color"@),
                                },
                                methods: spec_methods_list(mv->List_0@),
                            },
                        )
                    },
                }
            },
        },
        _ => Err(ErrorView::SomethingGoneWrong),
    }
}

impl GetInfoResponse {
    /// Decode a dynamic value as an information result.
    #[verifier::loop_isolation(false)]
    pub fn deserialize(value: &DynValue) -> (r: Result<GetInfoResponse, Error>)
        ensures
            match spec_decode_get_info(*value) {
                Ok(g) => r matches Ok(resp) && resp@ == g,
                Err(ev) => r matches Err(e) && e@ == ev,
            },
    {
        let fields = match value {
            DynValue::Obj(fields) => fields,
            _ => return Err(Error::SomethingGoneWrong),
        };
        let node_v = match get_value_by_key(fields, "node") {
            Ok(v) => v,
            Err(e) => return Err(e),
        };
        let node_fields = match node_v {
            DynValue::Obj(nf) => nf,
            _ => return Err(Error::SomethingGoneWrong),
        };
        let alias = read_optional_string(node_fields, "alias");
        let pubkey = read_optional_string(node_fields, "pubkey");
        let color = read_optional_string(node_fields, "color");
        let methods_v = match get_value_by_key(fields, "methods") {
            Ok(v) => v,
            Err(e) => return Err(e),
        };
        let items = match methods_v {
            DynValue::List(items) => items,
            _ => return Err(Error::TypeMismatch(String::from_str("expected an array [methods]"))),
        };
        let mut methods: Vec<GetInfoMethod> = Vec::new();
        let mut i: usize = 0;
        while i < items.len()
            invariant
                i <= items@.len(),
                methods.deep_view() == spec_methods_list(items@.subrange(0, i as int)),
            decreases items@.len() - i,
        {
            match &items[i] {
                DynValue::Str(s) => {
                    methods.push(GetInfoMethod::from_name(s.as_str()));
                },
                _ => {},
            }
            proof {
                let pre = items@.subrange(0, i as int + 1);
                assert(pre.drop_last() =~= items@.subrange(0, i as int));
                assert(pre.last() == items@[i as int]);
                assert(methods.deep_view() =~= spec_methods_list(pre));
            }
            i += 1;
        }
        proof {
            assert(items@.subrange(0, items@.len() as int) =~= items@);
        }
        Ok(GetInfoResponse { node: GetInfoNode { alias, pubkey, color }, methods })
    }
}

} // verus!
