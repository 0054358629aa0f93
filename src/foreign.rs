use crate::error::{ErrorKind, SteelErr};
use crate::value::{variant_name, SteelVal};
use vstd::prelude::*;
use vstd::string::*;

verus! {

/// A host-defined object embedded in the value union. The object itself is
/// kept by the host under `addr`; the union carries what the runtime reads
/// of it: its type name, its display text if it supplies one, and whether
/// it may be moved to another thread.
pub struct ForeignObject {
    pub addr: u64,
    pub class_name: String,
    pub text: Option<String>,
    pub transferable: bool,
}

/// `#<TypeName>`, the display of a foreign object without a text of its own.
pub open spec fn default_display(class_name: Seq<char>) -> Seq<char> {
    seq!['#', '<'] + class_name + seq!['>']
}

pub open spec fn display_of(f: ForeignObject) -> Seq<char> {
    match f.text {
        Some(t) => t@,
        None => default_display(f.class_name@),
    }
}

impl ForeignObject {
    /// A field-by-field copy.
    pub fn duplicate(&self) -> (r: ForeignObject)
        ensures
            r == *self,
    {
        let text = match &self.text {
            Some(t) => Some(t.clone()),
            None => None,
        };
        ForeignObject {
            addr: self.addr,
            class_name: self.class_name.clone(),
            text,
            transferable: self.transferable,
        }
    }

    pub fn display(&self) -> (r: String)
        ensures
            r@ == display_of(*self),
    {
        match &self.text {
            Some(t) => t.clone(),
            None => {
                let mut s = String::from_str("#<");
                s.append(self.class_name.as_str());
                s.append(">");
                proof {
                    reveal_strlit("#<");
                    reveal_strlit(">");
                    assert(s@ =~= default_display(self.class_name@));
                }
                s
            }
        }
    }
}

} // verus!

verus! {

/// The message of a downcast of `v` to the host type named `target` that
/// does not hold.
pub open spec fn downcast_mismatch_message(v: SteelVal, target: Seq<char>) -> Seq<char> {
    "Type Mismatch: Type of SteelVal: "@ + variant_name(v) + " did not match the given type: "@
        + target
}

/// The error of a downcast of `val` to the host type named `target` that
/// does not hold.
pub fn downcast_mismatch(val: &SteelVal, target: &str) -> (e: SteelErr)
    ensures
        e.kind == ErrorKind::ConversionError,
        e.message@ == downcast_mismatch_message(*val, target@),
{
    let mut m = String::from_str("Type Mismatch: Type of SteelVal: ");
    m.append(val.variant_name());
    m.append(" did not match the given type: ");
    m.append(target);
    SteelErr::new(ErrorKind::ConversionError, m)
}

/// The foreign object that a value holds, the first step of every downcast
/// to a host type; any other value is a conversion error naming its variant
/// and the type asked for.
pub fn foreign_record<'a>(val: &'a SteelVal, target: &str) -> (r: Result<&'a ForeignObject, SteelErr>)
    ensures
        val is Custom <==> r is Ok,
        r matches Ok(f) ==> val matches SteelVal::Custom(c) && *f == *c,
        r matches Err(e) ==> e.kind == ErrorKind::ConversionError && e.message@
            == downcast_mismatch_message(*val, target@),
{
    match val {
        SteelVal::Custom(c) => Ok(&**c),
        _ => Err(downcast_mismatch(val, target)),
    }
}

} // verus!
