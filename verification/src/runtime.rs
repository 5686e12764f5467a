//! The runtime catalog: maps runtime tags to base images, file names, and the
//! default execute, dev-server and install commands. Unknown tags fail closed.

use vstd::prelude::*;
use crate::text;

verus! {

#[derive(Clone, Copy, Debug, PartialEq, Eq, Structural)]
pub enum RuntimeType {
    Node,
    Bun,
    TypeScript,
}

/// The runtime a tag names, if any. `node`/`nodejs`, `bun`, and
/// `typescript`/`ts` are the supported tags.
pub open spec fn spec_runtime_of_tag(tag: Seq<char>) -> Option<RuntimeType> {
    if tag == "node"@ || tag == "nodejs"@ {
        Some(RuntimeType::Node)
    } else if tag == "bun"@ {
        Some(RuntimeType::Bun)
    } else if tag == "typescript"@ || tag == "ts"@ {
        Some(RuntimeType::TypeScript)
    } else {
        None
    }
}

/// Resolves a runtime tag; `None` means the tag is unsupported.
pub fn runtime_of_tag(tag: &str) -> (r: Option<RuntimeType>)
    ensures
        r == spec_runtime_of_tag(tag@),
{
    if text::str_eq(tag, "node") || text::str_eq(tag, "nodejs") {
        Some(RuntimeType::Node)
    } else if text::str_eq(tag, "bun") {
        Some(RuntimeType::Bun)
    } else if text::str_eq(tag, "typescript") || text::str_eq(tag, "ts") {
        Some(RuntimeType::TypeScript)
    } else {
        None
    }
}

impl RuntimeType {
    /// The canonical base image for containers of this runtime.
    pub fn image(&self) -> (r: &'static str)
        ensures
            r@ == match self {
                RuntimeType::Node => "node:18-alpine"@,
                RuntimeType::Bun => "oven/bun:1-alpine"@,
                RuntimeType::TypeScript => "node:18-alpine"@,
            },
    {
        match self {
            RuntimeType::Node => "node:18-alpine",
            RuntimeType::Bun => "oven/bun:1-alpine",
            RuntimeType::TypeScript => "node:18-alpine",
        }
    }

    /// The extension of the main source file.
    pub fn extension(&self) -> (r: &'static str)
        ensures
            r@ == match self {
                RuntimeType::Node => "js"@,
                RuntimeType::Bun => "js"@,
                RuntimeType::TypeScript => "ts"@,
            },
    {
        match self {
            RuntimeType::Node => "js",
            RuntimeType::Bun => "js",
            RuntimeType::TypeScript => "ts",
        }
    }

    /// Where the main source is materialized inside the container.
    pub fn main_file(&self) -> (r: &'static str)
        ensures
            r@ == match self {
                RuntimeType::Node => "/sandbox/index.js"@,
                RuntimeType::Bun => "/sandbox/index.js"@,
                RuntimeType::TypeScript => "/sandbox/index.ts"@,
            },
    {
        match self {
            RuntimeType::Node => "/sandbox/index.js",
            RuntimeType::Bun => "/sandbox/index.js",
            RuntimeType::TypeScript => "/sandbox/index.ts",
        }
    }

    /// The one-shot execute command run inside the container.
    pub fn run_command(&self) -> (r: &'static str)
        ensures
            r@ == match self {
                RuntimeType::Node => "node /sandbox/index.js"@,
                RuntimeType::Bun => "bun run /sandbox/index.js"@,
                RuntimeType::TypeScript => "npx ts-node /sandbox/index.ts"@,
            },
    {
        match self {
            RuntimeType::Node => "node /sandbox/index.js",
            RuntimeType::Bun => "bun run /sandbox/index.js",
            RuntimeType::TypeScript => "npx ts-node /sandbox/index.ts",
        }
    }

    /// The default dev-server command for deployments of this runtime.
    pub fn dev_command(&self) -> (r: &'static str)
        ensures
            r@ == match self {
                RuntimeType::Node => "npm run dev"@,
                RuntimeType::Bun => "bun dev"@,
                RuntimeType::TypeScript => "bun dev"@,
            },
    {
        match self {
            RuntimeType::Node => "npm run dev",
            RuntimeType::Bun => "bun dev",
            RuntimeType::TypeScript => "bun dev",
        }
    }

    /// The dependency install command run in `/sandbox`.
    pub fn install_command(&self) -> (r: &'static str)
        ensures
            r@ == match self {
                RuntimeType::Node => "cd /sandbox && npm install --verbose"@,
                RuntimeType::Bun => "cd /sandbox && bun install --verbose"@,
                RuntimeType::TypeScript => "cd /sandbox && npm install --verbose"@,
            },
    {
        match self {
            RuntimeType::Node => "cd /sandbox && npm install --verbose",
            RuntimeType::Bun => "cd /sandbox && bun install --verbose",
            RuntimeType::TypeScript => "cd /sandbox && npm install --verbose",
        }
    }
}

} // verus!
