//! The fixed texts the scaffolders write: application stubs, dependency
//! manifests and environment files.  Each text exists once as a specification
//! function and once as an executable builder proved to produce it.

use vstd::prelude::*;
use vstd::string::StringExecFns;

verus! {

/// The dependency manifest written beside a generated Django project.
pub open spec fn django_requirements() -> Seq<char> {
    "Django>=4.2,<5.0\ndjango-cors-headers>=4.0\ndjango-environ>=0.10\n"@
}

pub fn django_requirements_text() -> (s: String)
    ensures
        s@ == django_requirements(),
{
    String::from_str("Django>=4.2,<5.0\ndjango-cors-headers>=4.0\ndjango-environ>=0.10\n")
}

/// The minimal Flask application stub.
pub open spec fn flask_stub() -> Seq<char> {
    "from flask import Flask, jsonify\n\napp = Flask(__name__)\n\n@app.route('/')\ndef home():\n    return jsonify({\"message\": \"Hello, Flask!\"})\n\n@app.route('/health')\ndef health():\n    return jsonify({\"status\": \"healthy\"})\n\n@app.route('/api/hello')\ndef api_hello():\n    return jsonify({\"message\": \"Hello from Flask API!\"})\n\nif __name__ == '__main__':\n    app.run(debug=True, host='0.0.0.0', port=5000)\n"@
}

pub fn flask_stub_text() -> (s: String)
    ensures
        s@ == flask_stub(),
{
    String::from_str(
        "from flask import Flask, jsonify\n\napp = Flask(__name__)\n\n@app.route('/')\ndef home():\n    return jsonify({\"message\": \"Hello, Flask!\"})\n\n@app.route('/health')\ndef health():\n    return jsonify({\"status\": \"healthy\"})\n\n@app.route('/api/hello')\ndef api_hello():\n    return jsonify({\"message\": \"Hello from Flask API!\"})\n\nif __name__ == '__main__':\n    app.run(debug=True, host='0.0.0.0', port=5000)\n",
    )
}

/// The Flask dependency manifest; a reminder line is prepended when the
/// package could not be confirmed installed.
pub open spec fn flask_requirements(installed: bool) -> Seq<char> {
    if installed {
        "Flask>=2.3,<3.0\nFlask-CORS>=4.0\npython-dotenv>=1.0\n"@
    } else {
        "# Flask not installed - run: pip install -r requirements.txt\nFlask>=2.3,<3.0\nFlask-CORS>=4.0\npython-dotenv>=1.0\n"@
    }
}

pub fn flask_requirements_text(installed: bool) -> (s: String)
    ensures
        s@ == flask_requirements(installed),
{
    if installed {
        String::from_str("Flask>=2.3,<3.0\nFlask-CORS>=4.0\npython-dotenv>=1.0\n")
    } else {
        String::from_str(
            "# Flask not installed - run: pip install -r requirements.txt\nFlask>=2.3,<3.0\nFlask-CORS>=4.0\npython-dotenv>=1.0\n",
        )
    }
}

/// The environment file written beside the Flask stub.
pub open spec fn flask_env() -> Seq<char> {
    "FLASK_ENV=development\nFLASK_DEBUG=True\nFLASK_APP=app.py\n"@
}

pub fn flask_env_text() -> (s: String)
    ensures
        s@ == flask_env(),
{
    String::from_str("FLASK_ENV=development\nFLASK_DEBUG=True\nFLASK_APP=app.py\n")
}

/// The minimal FastAPI application stub.
pub open spec fn fastapi_stub() -> Seq<char> {
    "from fastapi import FastAPI\nfrom fastapi.middleware.cors import CORSMiddleware\n\napp = FastAPI(title=\"FastAPI App\", version=\"1.0.0\")\n\n# Add CORS middleware\napp.add_middleware(\n    CORSMiddleware,\n    allow_origins=[\"*\"],\n    allow_credentials=True,\n    allow_methods=[\"*\"],\n    allow_headers=[\"*\"],\n)\n\n@app.get(\"/\")\nasync def read_root():\n    return {\"message\": \"Hello, FastAPI!\"}\n\n@app.get(\"/health\")\nasync def health_check():\n    return {\"status\": \"healthy\"}\n\n@app.get(\"/api/hello\")\nasync def api_hello():\n    return {\"message\": \"Hello from FastAPI!\"}\n\nif __name__ == \"__main__\":\n    import uvicorn\n    uvicorn.run(\"main:app\", host=\"0.0.0.0\", port=8000, reload=True)\n"@
}

pub fn fastapi_stub_text() -> (s: String)
    ensures
        s@ == fastapi_stub(),
{
    String::from_str(
        "from fastapi import FastAPI\nfrom fastapi.middleware.cors import CORSMiddleware\n\napp = FastAPI(title=\"FastAPI App\", version=\"1.0.0\")\n\n# Add CORS middleware\napp.add_middleware(\n    CORSMiddleware,\n    allow_origins=[\"*\"],\n    allow_credentials=True,\n    allow_methods=[\"*\"],\n    allow_headers=[\"*\"],\n)\n\n@app.get(\"/\")\nasync def read_root():\n    return {\"message\": \"Hello, FastAPI!\"}\n\n@app.get(\"/health\")\nasync def health_check():\n    return {\"status\": \"healthy\"}\n\n@app.get(\"/api/hello\")\nasync def api_hello():\n    return {\"message\": \"Hello from FastAPI!\"}\n\nif __name__ == \"__main__\":\n    import uvicorn\n    uvicorn.run(\"main:app\", host=\"0.0.0.0\", port=8000, reload=True)\n",
    )
}

/// The FastAPI dependency manifest; a reminder line is prepended unless both
/// FastAPI and uvicorn were confirmed installed.
pub open spec fn fastapi_requirements(installed: bool) -> Seq<char> {
    if installed {
        "fastapi>=0.104,<1.0\nuvicorn[standard]>=0.24,<1.0\npython-multipart>=0.0.6\n"@
    } else {
        "# FastAPI/uvicorn not installed - run: pip install -r requirements.txt\nfastapi>=0.104,<1.0\nuvicorn[standard]>=0.24,<1.0\npython-multipart>=0.0.6\n"@
    }
}

pub fn fastapi_requirements_text(installed: bool) -> (s: String)
    ensures
        s@ == fastapi_requirements(installed),
{
    if installed {
        String::from_str(
            "fastapi>=0.104,<1.0\nuvicorn[standard]>=0.24,<1.0\npython-multipart>=0.0.6\n",
        )
    } else {
        String::from_str(
            "# FastAPI/uvicorn not installed - run: pip install -r requirements.txt\nfastapi>=0.104,<1.0\nuvicorn[standard]>=0.24,<1.0\npython-multipart>=0.0.6\n",
        )
    }
}

/// The minimal Pyramid application stub.
pub open spec fn pyramid_stub() -> Seq<char> {
    "from pyramid.config import Configurator\nfrom pyramid.response import Response\nfrom pyramid.view import view_config\nimport json\n\n@view_config(route_name='home', renderer='json')\ndef home_view(request):\n    return {'message': 'Hello, Pyramid!'}\n\n@view_config(route_name='health', renderer='json')\ndef health_view(request):\n    return {'status': 'healthy'}\n\ndef main():\n    config = Configurator()\n\n    config.add_route('home', '/')\n    config.add_route('health', '/health')\n    config.scan()\n\n    app = config.make_wsgi_app()\n    return app\n\nif __name__ == '__main__':\n    from wsgiref.simple_server import make_server\n    app = main()\n    server = make_server('0.0.0.0', 6543, app)\n    print('Serving on http://0.0.0.0:6543')\n    server.serve_forever()\n"@
}

pub fn pyramid_stub_text() -> (s: String)
    ensures
        s@ == pyramid_stub(),
{
    String::from_str(
        "from pyramid.config import Configurator\nfrom pyramid.response import Response\nfrom pyramid.view import view_config\nimport json\n\n@view_config(route_name='home', renderer='json')\ndef home_view(request):\n    return {'message': 'Hello, Pyramid!'}\n\n@view_config(route_name='health', renderer='json')\ndef health_view(request):\n    return {'status': 'healthy'}\n\ndef main():\n    config = Configurator()\n\n    config.add_route('home', '/')\n    config.add_route('health', '/health')\n    config.scan()\n\n    app = config.make_wsgi_app()\n    return app\n\nif __name__ == '__main__':\n    from wsgiref.simple_server import make_server\n    app = main()\n    server = make_server('0.0.0.0', 6543, app)\n    print('Serving on http://0.0.0.0:6543')\n    server.serve_forever()\n",
    )
}

/// The Pyramid dependency manifest.
pub open spec fn pyramid_requirements(installed: bool) -> Seq<char> {
    if installed {
        "pyramid>=2.0\nwaitress>=2.1\n"@
    } else {
        "# Pyramid not installed - run: pip install -r requirements.txt\npyramid>=2.0\nwaitress>=2.1\n"@
    }
}

pub fn pyramid_requirements_text(installed: bool) -> (s: String)
    ensures
        s@ == pyramid_requirements(installed),
{
    if installed {
        String::from_str("pyramid>=2.0\nwaitress>=2.1\n")
    } else {
        String::from_str(
            "# Pyramid not installed - run: pip install -r requirements.txt\npyramid>=2.0\nwaitress>=2.1\n",
        )
    }
}

/// The generic Python entry-point stub, named after the technology.
pub open spec fn py_generic_main(tech: Seq<char>) -> Seq<char> {
    "#!/usr/bin/env python3\n\"\"\"\n"@ + tech + " - Python Application\n\"\"\"\n\ndef main():\n    print(\"Hello from "@
        + tech + "!\")\n    # Add your "@ + tech
        + " code here\n\nif __name__ == \"__main__\":\n    main()\n"@
}

pub fn py_generic_main_text(tech: &str) -> (s: String)
    ensures
        s@ == py_generic_main(tech@),
{
    let s = String::from_str("#!/usr/bin/env python3\n\"\"\"\n");
    let s = s.concat(tech);
    let s = s.concat(" - Python Application\n\"\"\"\n\ndef main():\n    print(\"Hello from ");
    let s = s.concat(tech);
    let s = s.concat("!\")\n    # Add your ");
    let s = s.concat(tech);
    let s = s.concat(" code here\n\nif __name__ == \"__main__\":\n    main()\n");
    s
}

/// The generic Python dependency manifest: the named package, with a
/// reminder line when it could not be confirmed installed; for the bare
/// `python` technology only a placeholder comment.
pub open spec fn py_generic_requirements(tech: Seq<char>, named: bool, installed: bool) -> Seq<
    char,
> {
    if named {
        if installed {
            "# Requirements for "@ + tech + "\n"@ + tech + "\n"@
        } else {
            "# "@ + tech + " not installed - run: pip install -r requirements.txt\n"@ + tech + "\n"@
        }
    } else {
        "# Add your Python dependencies here\n"@
    }
}

pub fn py_generic_requirements_text(tech: &str, named: bool, installed: bool) -> (s: String)
    ensures
        s@ == py_generic_requirements(tech@, named, installed),
{
    if named {
        if installed {
            let s = String::from_str("# Requirements for ");
            let s = s.concat(tech);
            let s = s.concat("\n");
            let s = s.concat(tech);
            let s = s.concat("\n");
            s
        } else {
            let s = String::from_str("# ");
            let s = s.concat(tech);
            let s = s.concat(" not installed - run: pip install -r requirements.txt\n");
            let s = s.concat(tech);
            let s = s.concat("\n");
            s
        }
    } else {
        String::from_str("# Add your Python dependencies here\n")
    }
}

/// The Express server stub.
pub open spec fn express_server() -> Seq<char> {
    "const express = require('express');\nconst cors = require('cors');\nconst helmet = require('helmet');\nrequire('dotenv').config();\n\nconst app = express();\nconst PORT = process.env.PORT || 3000;\n\n// Middleware\napp.use(helmet());\napp.use(cors());\napp.use(express.json());\napp.use(express.urlencoded({ extended: true }));\n\n// Routes\napp.get('/', (req, res) => {\n    res.json({\n        message: 'Hello from Express!',\n        timestamp: new Date().toISOString()\n    });\n});\n\napp.get('/health', (req, res) => {\n    res.json({ status: 'healthy' });\n});\n\napp.get('/api/status', (req, res) => {\n    res.json({\n        status: 'running',\n        version: '1.0.0',\n        environment: process.env.NODE_ENV || 'development'\n    });\n});\n\n// Error handling middleware\napp.use((err, req, res, next) => {\n    console.error(err.stack);\n    res.status(500).json({ error: 'Something went wrong!' });\n});\n\n// 404 handler\napp.use((req, res) => {\n    res.status(404).json({ error: 'Route not found' });\n});\n\napp.listen(PORT, () => {\n    console.log(`Server running on http://localhost:${PORT}`);\n    console.log(`Environment: ${process.env.NODE_ENV || 'development'}`);\n});\n\nmodule.exports = app;\n"@
}

pub fn express_server_text() -> (s: String)
    ensures
        s@ == express_server(),
{
    String::from_str(
        "const express = require('express');\nconst cors = require('cors');\nconst helmet = require('helmet');\nrequire('dotenv').config();\n\nconst app = express();\nconst PORT = process.env.PORT || 3000;\n\n// Middleware\napp.use(helmet());\napp.use(cors());\napp.use(express.json());\napp.use(express.urlencoded({ extended: true }));\n\n// Routes\napp.get('/', (req, res) => {\n    res.json({\n        message: 'Hello from Express!',\n        timestamp: new Date().toISOString()\n    });\n});\n\napp.get('/health', (req, res) => {\n    res.json({ status: 'healthy' });\n});\n\napp.get('/api/status', (req, res) => {\n    res.json({\n        status: 'running',\n        version: '1.0.0',\n        environment: process.env.NODE_ENV || 'development'\n    });\n});\n\n// Error handling middleware\napp.use((err, req, res, next) => {\n    console.error(err.stack);\n    res.status(500).json({ error: 'Something went wrong!' });\n});\n\n// 404 handler\napp.use((req, res) => {\n    res.status(404).json({ error: 'Route not found' });\n});\n\napp.listen(PORT, () => {\n    console.log(`Server running on http://localhost:${PORT}`);\n    console.log(`Environment: ${process.env.NODE_ENV || 'development'}`);\n});\n\nmodule.exports = app;\n",
    )
}

/// The environment file written beside the Express stub.
pub open spec fn node_env() -> Seq<char> {
    "NODE_ENV=development\nPORT=3000\n"@
}

pub fn node_env_text() -> (s: String)
    ensures
        s@ == node_env(),
{
    String::from_str("NODE_ENV=development\nPORT=3000\n")
}

/// The generic Node.js entry-point stub, named after the technology.
pub open spec fn node_index(tech: Seq<char>) -> Seq<char> {
    "#!/usr/bin/env node\n\n/**\n * "@ + tech
        + " - Node.js Application\n */\n\nconsole.log('Hello from "@ + tech
        + "!');\n\n// Add your "@ + tech
        + " code here\nfunction main() {\n    console.log('Starting "@ + tech
        + " application...');\n    // Your application logic here\n}\n\nif (require.main === module) {\n    main();\n}\n\nmodule.exports = { main };\n"@
}

pub fn node_index_text(tech: &str) -> (s: String)
    ensures
        s@ == node_index(tech@),
{
    let s = String::from_str("#!/usr/bin/env node\n\n/**\n * ");
    let s = s.concat(tech);
    let s = s.concat(" - Node.js Application\n */\n\nconsole.log('Hello from ");
    let s = s.concat(tech);
    let s = s.concat("!');\n\n// Add your ");
    let s = s.concat(tech);
    let s = s.concat(" code here\nfunction main() {\n    console.log('Starting ");
    let s = s.concat(tech);
    let s = s.concat(
        " application...');\n    // Your application logic here\n}\n\nif (require.main === module) {\n    main();\n}\n\nmodule.exports = { main };\n",
    );
    s
}

/// The scripts block `npm init -y` writes into a fresh manifest.
pub open spec fn default_scripts_block() -> Seq<char> {
    "  \"scripts\": {\n    \"test\": \"echo \\\"Error: no test specified\\\" && exit 1\"\n  },"@
}

pub fn default_scripts_block_text() -> (s: String)
    ensures
        s@ == default_scripts_block(),
        s@.len() > 0,
{
    let s = String::from_str(
        "  \"scripts\": {\n    \"test\": \"echo \\\"Error: no test specified\\\" && exit 1\"\n  },",
    );
    proof {
        reveal_strlit(
            "  \"scripts\": {\n    \"test\": \"echo \\\"Error: no test specified\\\" && exit 1\"\n  },",
        );
    }
    s
}

/// The scripts block the Express scaffolder puts in its place.
pub open spec fn dev_scripts_block() -> Seq<char> {
    "  \"scripts\": {\n    \"start\": \"node server.js\",\n    \"dev\": \"nodemon server.js\",\n    \"test\": \"echo \\\"Error: no test specified\\\" && exit 1\"\n  },"@
}

pub fn dev_scripts_block_text() -> (s: String)
    ensures
        s@ == dev_scripts_block(),
{
    String::from_str(
        "  \"scripts\": {\n    \"start\": \"node server.js\",\n    \"dev\": \"nodemon server.js\",\n    \"test\": \"echo \\\"Error: no test specified\\\" && exit 1\"\n  },",
    )
}

} // verus!
