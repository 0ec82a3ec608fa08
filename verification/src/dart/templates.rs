//! The inputs of the Dart source templates: each names the plan of the
//! declaration or file that it renders.
use vstd::prelude::*;
use crate::dart::function::{DartFFIAsyncFunctionDef, DartFFIFunctionDef, DartFunction};
use crate::dart::lower::{DartCallback, DartClass};
use crate::dart::record::{DartCustomType, DartEnum, DartRecord};

verus! {

/// The runtime support that every library starts with.
pub struct PreludeTemplate {}

/// The wrappers of the custom types.
pub struct CustomTypesTemplate<'a> {
    pub custom_types: &'a [DartCustomType],
}

/// The binding of a sync native function.
pub struct SyncExternFunctionTemplate<'a> {
    pub ffi_def: &'a DartFFIFunctionDef,
}

/// The bindings of the entry points of an async native function.
pub struct AsyncExternFunctionTemplate<'a> {
    pub async_def: &'a DartFFIAsyncFunctionDef,
}

/// The native bindings of a function.
pub struct ExternFunctionTemplate<'a> {
    pub func: &'a DartFunction,
}

/// A record class.
pub struct RecordTemplate<'a> {
    pub record: &'a DartRecord,
}

/// The build hook that compiles the native library.
pub struct BuildHookTemplate<'a> {
    pub artifact_name: &'a str,
}

/// The package manifest.
pub struct PubspecTemplate<'a> {
    pub artifact_name: &'a str,
    pub description: Option<&'a str>,
    pub version: Option<&'a str>,
    pub repository: Option<&'a str>,
}

/// An enum generated as a Dart enhanced `enum`.
pub struct EnhancedEnumTemplate<'a> {
    pub dart_enum: &'a DartEnum,
}

/// An enum generated as a sealed class hierarchy.
pub struct SealedClassEnumTemplate<'a> {
    pub dart_enum: &'a DartEnum,
}

/// A callback interface and its native glue.
pub struct CallbackTemplate<'a> {
    pub cb: &'a DartCallback,
}

/// A class wrapping a native handle.
pub struct ClassTemplate<'a> {
    pub class: &'a DartClass,
}

/// The Dart function that calls a native function.
pub struct CallableTemplate<'a> {
    pub func: &'a DartFunction,
}

} // verus!
