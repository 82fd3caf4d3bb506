use lyrn::json::Json;
use lyrn::project_config::ProjectConfig;
use lyrn::webpack::{get_config_dev, get_config_prod, get_js_config};

#[test]
fn test_config_dev_shape() {
    let cfg = ProjectConfig::default();
    let wc = get_config_dev(false, &cfg, "/work", &Json::obj());
    let text = lyrn::render::render_lines(&wc.config, 0).join("\n");
    assert!(text.contains("\"mode\": \"development\""));
    assert!(text.contains("\"publicPath\": \"http://localhost:8080/\""));
    assert!(text.contains("\"port\": 8080"));
    assert!(text.contains(">>>path.resolve(cwd, 'src/main.ts')"));
    assert_eq!(wc.rules.len(), 4);
    assert_eq!(wc.plugins.len(), 4);
    assert_eq!(wc.constants.len(), 7);
}

#[test]
fn test_config_prod_shape() {
    let cfg = ProjectConfig::default();
    let wc = get_config_prod(false, &cfg, "/work", &Json::obj());
    let text = lyrn::render::render_lines(&wc.config, 0).join("\n");
    assert!(text.contains("\"mode\": \"production\""));
    assert!(text.contains("\"publicPath\": \"/\""));
    assert!(text.contains("\"maxEntrypointSize\": 512000"));
    assert_eq!(wc.plugins.len(), 5);
    assert_eq!(wc.constants.len(), 8);
}

#[test]
fn test_react_adds_refresh_plugin() {
    let mut cfg = ProjectConfig::default();
    cfg.app.framework = lyrn::templates::Framework::React;
    let wc = get_config_dev(false, &cfg, "/work", &Json::obj());
    assert_eq!(wc.constants.len(), 8);
    assert!(wc.constants[0].contains("ReactRefreshWebpackPlugin"));
    assert_eq!(wc.plugins.len(), 5);
    assert_eq!(wc.plugins[4], "new ReactRefreshWebpackPlugin()");
}

#[test]
fn test_export_config_dev() {
    // Golden rendering of the development configuration module: byte-
    // identical to the stored expectation.
    let cfg = ProjectConfig::default();
    let wc = get_config_dev(false, &cfg, "/work", &Json::obj());
    let lines = get_js_config(&wc);
    let expected = r#"const path = require('path');
const webpack = require('webpack');
const ForkTsCheckerWebpackPlugin = require('fork-ts-checker-webpack-plugin');
const CopyWebpackPlugin = require('copy-webpack-plugin');
const HtmlWebpackPlugin = require('html-webpack-plugin');
const cwd = process.cwd();
const isDev = true;

module.exports = {
  cache: false,
  devServer: {
    compress: true,
    headers: {
      'Access-Control-Allow-Headers': 'X-Requested-With, content-type, Authorization',
      'Access-Control-Allow-Methods': 'GET, POST, PUT, DELETE, PATCH, OPTIONS',
      'Access-Control-Allow-Origin': '*'
    },
    historyApiFallback: true,
    hot: true,
    port: 8080,
    static: './'
  },
  devtool: 'inline-source-map',
  entry: [
    path.resolve(cwd, 'src/main.ts')
  ],
  infrastructureLogging: {
    level: 'warn'
  },
  mode: 'development',
  module: {
    rules: [
      new Object({
        test: /\.tsx?$/,
        exclude: /(node_modules|\.webpack)/,
        use: {
          loader: 'ts-loader',
          options: {
            transpileOnly: true,
          },
        },
      }),
      new Object({
        test: /\.(sass|scss|css)$/,
        use: [
          { loader: isDev ? 'style-loader' : MiniCssExtractPlugin.loader },
          {
            loader: 'css-loader',
            options: {
              importLoaders: isDev ? 1 : 2,
              sourceMap: isDev,
              modules: isDev,
            },
          },
          { loader: 'postcss-loader', options: { sourceMap: isDev } },
          { loader: 'sass-loader', options: { sourceMap: isDev } },
        ],
      }),
      new Object({
        test: /\.(?:ico|gif|png|jpe?g)$/i,
        type: 'asset/resource',
        generator: {
          filename: 'assets/[hash][ext][query]',
        },
      }),
      new Object({
        test: /\.(woff(2)?|eot|ttf|otf|svg|)$/i,
        type: 'asset/inline',
      })
    ],
  },
  optimization: {
    minimize: false
  },
  output: {
    assetModuleFilename: 'assets/[hash][ext][query]',
    filename: 'js/[name].[contenthash].bundle.js',
    path: path.resolve(cwd, 'dist'),
    publicPath: 'http://localhost:8080/'
  },
  performance: {
    hints: false
  },
  plugins: [
    new ForkTsCheckerWebpackPlugin(),
    new CopyWebpackPlugin({
      patterns: [{
        from: path.resolve(cwd, 'public'),
        to: 'assets',
        globOptions: {
          ignore: ['*.DS_Store'],
        },
        noErrorOnMissing: true, 
      }],
    }),
    new HtmlWebpackPlugin({
      title: 'APP TITLE',
      favicon: path.resolve(cwd, './src/images/logo.svg'),
      template: path.resolve(cwd, './src/index.html'),
      filename: 'index.html'
    }),
    new webpack.HotModuleReplacementPlugin()
  ],
  resolve: {
    alias: {
      build: path.resolve(cwd, 'dist'),
      images: path.resolve(cwd, 'src/images'),
      main: path.resolve(cwd, 'src/main.ts'),
      public: path.resolve(cwd, 'public'),
      src: path.resolve(cwd, 'src')
    },
    extensions: [
      '.tsx',
      '.ts',
      '.mjs',
      '.js',
      '.jsx',
      '.json',
      '.wasm',
      '.css'
    ],
    modules: [
      path.resolve(cwd, 'src'),
      'node_modules'
    ]
  },
  stats: {
    assets: false,
    modules: false
  },
  target: 'web'
}"#;
    assert_eq!(lines.join("\n"), expected);
}

#[test]
fn test_export_config_prod() {
    // Golden rendering of the production configuration module.
    let cfg = ProjectConfig::default();
    let wc = get_config_prod(false, &cfg, "/work", &Json::obj());
    let lines = get_js_config(&wc);
    let expected = r#"const path = require('path');
const webpack = require('webpack');
const ForkTsCheckerWebpackPlugin = require('fork-ts-checker-webpack-plugin');
const CopyWebpackPlugin = require('copy-webpack-plugin');
const HtmlWebpackPlugin = require('html-webpack-plugin');
const MiniCssExtractPlugin = require('mini-css-extract-plugin');
const cwd = process.cwd();
const isDev = false;

module.exports = {
  devtool: false,
  entry: [
    path.resolve(cwd, 'src/main.ts')
  ],
  mode: 'production',
  module: {
    rules: [
      new Object({
        test: /\.tsx?$/,
        exclude: /(node_modules|\.webpack)/,
        use: {
          loader: 'ts-loader',
          options: {
            transpileOnly: true,
          },
        },
      }),
      new Object({
        test: /\.(sass|scss|css)$/,
        use: [
          { loader: isDev ? 'style-loader' : MiniCssExtractPlugin.loader },
          {
            loader: 'css-loader',
            options: {
              importLoaders: isDev ? 1 : 2,
              sourceMap: isDev,
              modules: isDev,
            },
          },
          { loader: 'postcss-loader', options: { sourceMap: isDev } },
          { loader: 'sass-loader', options: { sourceMap: isDev } },
        ],
      }),
      new Object({
        test: /\.(?:ico|gif|png|jpe?g)$/i,
        type: 'asset/resource',
        generator: {
          filename: 'assets/[hash][ext][query]',
        },
      }),
      new Object({
        test: /\.(woff(2)?|eot|ttf|otf|svg|)$/i,
        type: 'asset/inline',
      })
    ],
  },
  optimization: {
    concatenateModules: true,
    minimize: false,
    sideEffects: true
  },
  output: {
    assetModuleFilename: 'assets/[hash][ext][query]',
    chunkFilename: 'js/[name].[chunkhash].chunk.js',
    clean: true,
    filename: 'js/[name].[contenthash].bundle.js',
    path: path.resolve(cwd, 'dist'),
    publicPath: '/'
  },
  performance: {
    hints: false,
    maxAssetSize: 512000,
    maxEntrypointSize: 512000
  },
  plugins: [
    new ForkTsCheckerWebpackPlugin(),
    new CopyWebpackPlugin({
      patterns: [{
        from: path.resolve(cwd, 'public'),
        to: 'assets',
        globOptions: {
          ignore: ['*.DS_Store'],
        },
        noErrorOnMissing: true, 
      }],
    }),
    new HtmlWebpackPlugin({
      title: 'APP TITLE',
      favicon: path.resolve(cwd, './src/images/logo.svg'),
      template: path.resolve(cwd, './src/index.html'),
      filename: 'index.html'
    }),
    new MiniCssExtractPlugin({
      filename: 'styles/[name].[chunkhash].css',
      chunkFilename: 'styles/[name].[chunkhash].chunk.css',
    }),
    new webpack.HotModuleReplacementPlugin()
  ],
  resolve: {
    alias: {
      build: path.resolve(cwd, 'dist'),
      images: path.resolve(cwd, 'src/images'),
      main: path.resolve(cwd, 'src/main.ts'),
      public: path.resolve(cwd, 'public'),
      src: path.resolve(cwd, 'src')
    },
    extensions: [
      '.tsx',
      '.ts',
      '.mjs',
      '.js',
      '.jsx',
      '.json',
      '.wasm',
      '.css'
    ],
    modules: [
      path.resolve(cwd, 'src'),
      'node_modules'
    ]
  },
  stats: 'errors-warnings'
}"#;
    assert_eq!(lines.join("\n"), expected);
}
